//! The bucket fill gesture.
//!
//! A press floods the layer from the pressed pixel on a worker thread. While the
//! pointer stays down, dragging sideways moves the threshold and the flood runs
//! again, always from the pixels that the layer had at the press. The gesture
//! ends in one history entry for the threshold it settled on. The first showing
//! is swept into view by the frame clock, independently of the gesture.

use std::sync::Arc;

use vstd::multiset::Multiset;
use vstd::prelude::*;

use crate::canvas::pump::RenderPump;
use crate::ieee::Double;
use crate::shared::share;

verus! {

/// How long the reveal sweep takes end to end, in milliseconds.
pub const REVEAL_MS: u64 = 400;

/// Nanoseconds in a millisecond.
pub const NANOS_PER_MS: u64 = 1_000_000;

/// What a press captured: the layer as it was and how to flood it.
pub struct FillPress {
    /// The target layer's pixels at the press.
    pub before: Vec<u8>,
    /// The composite to match against, when all layers are sampled.
    pub sample: Option<Vec<u8>>,
    /// What lies above the target layer, when all layers are sampled.
    pub occluders: Option<Vec<u8>>,
    /// The selection that confines the fill.
    pub mask: Option<Vec<u8>>,
    /// The pressed pixel.
    pub seed: (u32, u32),
    /// Canvas width and height.
    pub size: (u32, u32),
    /// The paint, blue first.
    pub color_bgr: (u8, u8, u8),
    /// Whether edge pixels are weighted.
    pub auto_edge: bool,
    /// Widget x at the press, from which the threshold drag is measured.
    pub origin_x: Double,
}

/// A fill gesture, live from press to release.
pub struct FillSession {
    /// Tells this gesture from every other, so that a flood which outlives its
    /// gesture is dropped.
    pub generation: u64,
    /// Where the target layer was last seen.
    pub layer_idx: usize,
    /// The target layer.
    pub layer_id: String,
    pub press: Arc<FillPress>,
    /// The threshold at the press.
    pub base_tolerance: u8,
    pub tolerance: u8,
    /// The pixels that the gesture has put on the layer.
    pub current: Option<Vec<u8>>,
    /// A flood is running.
    pub in_flight: bool,
    /// The threshold moved while a flood was running, so one more is owed.
    pub restart: bool,
    /// The pointer is up.
    pub released: bool,
    /// The next showing is the first, and is swept in.
    pub animate: bool,
}

/// One flood for the worker thread.
pub struct FillJob {
    pub generation: u64,
    pub press: Arc<FillPress>,
    pub tolerance: u8,
    /// Only the first showing is swept in, so only it needs the order in which
    /// pixels are reached.
    pub reveal_order: bool,
}

/// A finished gesture: the layer's pixels before and after it.
pub struct FillRecord {
    pub layer_id: String,
    pub press: Arc<FillPress>,
    pub after: Vec<u8>,
}

/// The fill gesture in progress, the count of gestures, and the reveal sweep.
///
/// `reveal` is when the sweep started, in nanoseconds of the steady clock. It
/// stands outside the session: a gesture that ends during the sweep must not
/// leave the fill hidden.
///
/// `tolerance` is the threshold of the tool itself, which every gesture starts from
/// and which a drag leaves where it ends.
pub struct FillState {
    pub session: Option<FillSession>,
    pub generation: u64,
    pub reveal: Option<u64>,
    pub tolerance: u8,
}

/// A fill session as a value.
pub ghost struct SessionView {
    pub generation: u64,
    pub layer_idx: usize,
    pub layer_id: Seq<char>,
    pub press: FillPress,
    pub base_tolerance: u8,
    pub tolerance: u8,
    pub current: Option<Seq<u8>>,
    pub in_flight: bool,
    pub restart: bool,
    pub released: bool,
    pub animate: bool,
}

/// A finished gesture as a value.
pub ghost struct RecordView {
    pub layer_id: Seq<char>,
    pub press: FillPress,
    pub after: Seq<u8>,
}

/// The fill state as a value.
pub ghost struct FillView {
    pub session: Option<SessionView>,
    pub generation: u64,
    pub reveal: Option<u64>,
    pub tolerance: u8,
}

impl View for FillSession {
    type V = SessionView;

    open spec fn view(&self) -> SessionView {
        SessionView {
            generation: self.generation,
            layer_idx: self.layer_idx,
            layer_id: self.layer_id@,
            press: *self.press,
            base_tolerance: self.base_tolerance,
            tolerance: self.tolerance,
            current: match self.current {
                Some(buf) => Some(buf@),
                None => None,
            },
            in_flight: self.in_flight,
            restart: self.restart,
            released: self.released,
            animate: self.animate,
        }
    }
}

impl View for FillRecord {
    type V = RecordView;

    open spec fn view(&self) -> RecordView {
        RecordView { layer_id: self.layer_id@, press: *self.press, after: self.after@ }
    }
}

impl View for FillState {
    type V = FillView;

    open spec fn view(&self) -> FillView {
        FillView {
            session: match self.session {
                Some(s) => Some(s@),
                None => None,
            },
            generation: self.generation,
            reveal: self.reveal,
            tolerance: self.tolerance,
        }
    }
}

impl SessionView {
    /// The flood for the session's present threshold.
    pub open spec fn job(self) -> FillJob {
        FillJob {
            generation: self.generation,
            press: Arc::new(self.press),
            tolerance: self.tolerance,
            reveal_order: self.animate,
        }
    }
}

impl FillView {
    /// A gesture is opened at the tool's threshold, with its first flood under way.
    pub open spec fn opened(
        self,
        layer_idx: usize,
        layer_id: Seq<char>,
        press: FillPress,
    ) -> FillView {
        FillView {
            session: Some(
                SessionView {
                    generation: self.generation.wrapping_add(1),
                    layer_idx,
                    layer_id,
                    press,
                    base_tolerance: self.tolerance,
                    tolerance: self.tolerance,
                    current: None,
                    in_flight: true,
                    restart: false,
                    released: false,
                    animate: true,
                },
            ),
            generation: self.generation.wrapping_add(1),
            reveal: None,
            tolerance: self.tolerance,
        }
    }

    /// The drag has moved the threshold: the gesture's, and with it the tool's.
    pub open spec fn adjusted(self, next: u8) -> FillView {
        match self.session {
            Some(s) => FillView {
                session: Some(SessionView { tolerance: next, animate: false, ..s }),
                reveal: None,
                tolerance: next,
                ..self
            },
            None => self,
        }
    }

    /// A flood is asked for: one that is running is followed by another, else
    /// one starts.
    pub open spec fn request(self) -> (FillView, Option<FillJob>) {
        match self.session {
            None => (self, None),
            Some(s) => if s.in_flight {
                (FillView { session: Some(SessionView { restart: true, ..s }), ..self }, None)
            } else {
                (
                    FillView {
                        session: Some(SessionView { in_flight: true, restart: false, ..s }),
                        ..self
                    },
                    Some(s.job()),
                )
            },
        }
    }

    /// The gesture is closed: it leaves its pixels to history if it painted any.
    pub open spec fn finish(self) -> (FillView, Option<RecordView>) {
        (
            FillView { session: None, ..self },
            match self.session {
                Some(s) => match s.current {
                    Some(after) => Some(
                        RecordView { layer_id: s.layer_id, press: s.press, after },
                    ),
                    None => None,
                },
                None => None,
            },
        )
    }

    /// What every reachable state keeps: the live session is the last one
    /// opened, its pixels are as many as the layer's, and no sweep is running
    /// while its first showing is still to come.
    pub open spec fn inv(self) -> bool {
        self.session matches Some(s) ==> {
            &&& s.generation == self.generation
            &&& (s.current matches Some(buf) ==> buf.len() == s.press.before@.len())
            &&& (s.animate ==> self.reveal is None)
        }
    }

    /// The pump references that the sweep holds.
    pub open spec fn pump_share(self) -> int {
        if self.reveal is Some {
            1
        } else {
            0
        }
    }

    /// The floods of the live session that are under way.
    pub open spec fn in_flight(self) -> nat {
        match self.session {
            Some(s) => if s.in_flight {
                1
            } else {
                0
            },
            None => 0,
        }
    }
}

/// A record as a value, if there is one.
pub open spec fn record_view(r: Option<FillRecord>) -> Option<RecordView> {
    match r {
        Some(r) => Some(r@),
        None => None,
    }
}

/// Whether a pixel lies on the canvas.
pub open spec fn on_canvas(x: int, y: int, width: u32, height: u32) -> bool {
    0 <= x < width && 0 <= y < height
}

/// The pressed pixel, if it lies on the canvas.
pub fn seed_pixel(x: i32, y: i32, width: u32, height: u32) -> (r: Option<(u32, u32)>)
    ensures
        r == (if on_canvas(x as int, y as int, width, height) {
            Some((x as u32, y as u32))
        } else {
            None
        }),
{
    if x < 0 || y < 0 || x as u32 >= width || y as u32 >= height {
        None
    } else {
        Some((x as u32, y as u32))
    }
}

/// The pixels that a fill works on.
pub struct PressPixels {
    pub before: Vec<u8>,
    pub sample: Option<Vec<u8>>,
    pub occluders: Option<Vec<u8>>,
    pub mask: Option<Vec<u8>>,
}

/// The pixels that a fill works on, given what could be read of them. A selection
/// confines the fill, and where all layers are sampled the composite is matched
/// against; without either, or without the layer itself, there is no fill. What
/// lies above the layer only weighs its edges, and may be missing.
pub fn press_pixels(
    layer: Option<Vec<u8>>,
    selected: bool,
    mask: Option<Vec<u8>>,
    sample_all: bool,
    composite: Option<Vec<u8>>,
    above: Option<Vec<u8>>,
) -> (r: Option<PressPixels>)
    ensures
        r == (match layer {
            Some(before) => if (selected && mask is None) || (sample_all && composite is None) {
                None
            } else {
                Some(
                    PressPixels {
                        before,
                        sample: if sample_all {
                            composite
                        } else {
                            None
                        },
                        occluders: if sample_all {
                            above
                        } else {
                            None
                        },
                        mask: if selected {
                            mask
                        } else {
                            None
                        },
                    },
                )
            },
            None => None,
        }),
{
    if (selected && mask.is_none()) || (sample_all && composite.is_none()) {
        return None;
    }
    match layer {
        None => None,
        Some(before) => {
            let (sample, occluders) = if sample_all {
                (composite, above)
            } else {
                (None, None)
            };
            let mask = if selected {
                mask
            } else {
                None
            };
            Some(PressPixels { before, sample, occluders, mask })
        },
    }
}

/// The threshold as the percentage that the user sees.
pub open spec fn percent_spec(tolerance: u8) -> int {
    tolerance as int * 100 / 255
}

/// The threshold as the percentage that the user sees.
pub fn percent(tolerance: u8) -> (p: u32)
    ensures
        p == percent_spec(tolerance),
        p <= 100,
{
    tolerance as u32 * 100 / 255
}

/// What a pointer motion means to a fill gesture.
#[derive(Clone, Copy, Debug, PartialEq, Eq, Structural)]
pub enum FillMotion {
    /// No gesture is live.
    Ignore,
    /// A threshold drag measured from this widget x.
    Drag(Double),
    /// The button came up: the gesture ends.
    End,
}

/// What a threshold drag asks for. The tool keeps the threshold, and its slider is
/// left alone until the release.
pub struct FillAdjust {
    /// A sweep was cut short: uncover the fill.
    pub uncover: bool,
    /// The percentage to announce, when it is another one than before.
    pub announce: Option<u32>,
    /// A flood to start.
    pub job: Option<FillJob>,
}

/// What the end of the pointer's press asks for.
pub enum FillRelease {
    /// No gesture is live.
    Idle,
    /// A flood is still to land, and closes the gesture when it does. The slider
    /// goes to this threshold.
    Waiting { slider: u8 },
    /// The gesture is over. The slider goes to this threshold.
    Closed { slider: u8, record: Option<FillRecord> },
}

/// What a flood's result means.
pub enum FillArrival {
    /// It belongs to a gesture that is over.
    Stale,
    /// The tool was changed meanwhile: the gesture is over.
    Closed(Option<FillRecord>),
    /// Nothing matched and nothing had been painted: nothing to do.
    Unchanged,
    /// Paint the result onto these pixels and hand them back; `animate` says that
    /// this showing is swept in.
    Paint { buf: Vec<u8>, animate: bool },
}

/// Where painted pixels go.
#[derive(Clone, Copy, Debug, PartialEq, Eq, Structural)]
pub enum FillLanding {
    /// No gesture is live.
    Idle,
    /// The layer is gone, and the gesture with it.
    Abandoned,
    /// The layer stands here.
    Layer(usize),
}

/// What follows once a flood has landed.
pub enum FillNext {
    Nothing,
    /// The threshold moved meanwhile: start this flood.
    Flood(FillJob),
    /// The pointer was already up: the gesture is over.
    Closed(Option<FillRecord>),
}

/// What one frame of the sweep does.
#[derive(Clone, Copy, Debug, PartialEq, Eq, Structural)]
pub enum RevealTick {
    /// No sweep is running.
    Idle,
    /// The overlay was taken down meanwhile: the sweep is over.
    Gone,
    /// Show the fill as far as it gets in this many milliseconds.
    Show(u64),
    /// The sweep is complete: take the overlay down.
    Complete,
}

/// The place of the first layer with this id, if there is one.
pub open spec fn layer_place(ids: Seq<String>, id: Seq<char>) -> Option<int>
    decreases ids.len(),
{
    if ids.len() == 0 {
        None
    } else if ids[0]@ == id {
        Some(0)
    } else {
        match layer_place(ids.skip(1), id) {
            Some(i) => Some(i + 1),
            None => None,
        }
    }
}

/// The first layer with an id is the one that carries it with none before it.
pub proof fn lemma_layer_place(ids: Seq<String>, id: Seq<char>)
    ensures
        match layer_place(ids, id) {
            Some(i) => {
                &&& 0 <= i < ids.len()
                &&& ids[i]@ == id
                &&& forall|j: int| 0 <= j < i ==> (#[trigger] ids[j])@ != id
            },
            None => forall|j: int| 0 <= j < ids.len() ==> (#[trigger] ids[j])@ != id,
        },
    decreases ids.len(),
{
    if ids.len() > 0 && ids[0]@ != id {
        let rest = ids.skip(1);
        lemma_layer_place(rest, id);
        match layer_place(rest, id) {
            Some(i) => {
                assert(ids[i + 1] == rest[i]);
                assert forall|j: int| 0 <= j < i + 1 implies (#[trigger] ids[j])@ != id by {
                    if j > 0 {
                        assert(ids[j] == rest[j - 1]);
                    }
                }
            },
            None => {
                assert forall|j: int| 0 <= j < ids.len() implies (#[trigger] ids[j])@ != id by {
                    if j > 0 {
                        assert(ids[j] == rest[j - 1]);
                    }
                }
            },
        }
    }
}

/// The place of the first layer with this id, if there is one.
pub fn find_layer(ids: &Vec<String>, id: &String) -> (r: Option<usize>)
    ensures
        match r {
            Some(i) => layer_place(ids@, id@) == Some(i as int),
            None => layer_place(ids@, id@) is None,
        },
{
    proof {
        lemma_layer_place(ids@, id@);
    }
    let mut i: usize = 0;
    while i < ids.len()
        invariant
            i <= ids.len(),
            forall|j: int| 0 <= j < i ==> (#[trigger] ids@[j])@ != id@,
            match layer_place(ids@, id@) {
                Some(k) => {
                    &&& 0 <= k < ids.len()
                    &&& ids@[k]@ == id@
                    &&& forall|j: int| 0 <= j < k ==> (#[trigger] ids@[j])@ != id@
                },
                None => forall|j: int| 0 <= j < ids.len() ==> (#[trigger] ids@[j])@ != id@,
            },
        decreases ids.len() - i,
    {
        if ids[i] == *id {
            return Some(i);
        }
        i = i + 1;
    }
    None
}

impl FillState {
    /// No gesture, no sweep.
    pub fn new(tolerance: u8) -> (f: FillState)
        ensures
            f@ == (FillView { session: None, generation: 0, reveal: None, tolerance }),
            f@.inv(),
    {
        FillState { session: None, generation: 0, reveal: None, tolerance }
    }

    /// The tool's slider was moved.
    pub fn set_tolerance(&mut self, tolerance: u8)
        ensures
            final(self)@ == (FillView { tolerance, ..old(self)@ }),
            old(self)@.inv() ==> final(self)@.inv(),
    {
        self.tolerance = tolerance;
    }

    /// Open a gesture at the tool's threshold and start its first flood. A sweep still running for an
    /// earlier one is cut short; the second result says so.
    pub fn open(
        &mut self,
        pump: &mut RenderPump,
        layer_idx: usize,
        layer_id: String,
        press: FillPress,
    ) -> (r: (FillJob, bool))
        ensures
            final(self)@ == old(self)@.opened(layer_idx, layer_id@, press),
            r.0 == final(self)@.session->Some_0.job(),
            r.1 == (old(self).reveal is Some),
            *final(pump) == (if old(self).reveal is Some {
                old(pump).disarmed()
            } else {
                *old(pump)
            }),
            final(self)@.inv(),
    {
        let uncover = self.end_animation(pump);
        let generation: u64 = self.generation.wrapping_add(1);
        self.generation = generation;
        let tolerance: u8 = self.tolerance;
        let press = Arc::new(press);
        let job = FillJob { generation, press: share(&press), tolerance, reveal_order: true };
        self.session = Some(
            FillSession {
                generation,
                layer_idx,
                layer_id,
                press,
                base_tolerance: tolerance,
                tolerance,
                current: None,
                in_flight: true,
                restart: false,
                released: false,
                animate: true,
            },
        );
        (job, uncover)
    }

    /// Ask for a flood at the session's threshold.
    pub fn request(&mut self) -> (job: Option<FillJob>)
        ensures
            (final(self)@, job) == old(self)@.request(),
            old(self)@.inv() ==> final(self)@.inv(),
    {
        match self.session.take() {
            None => None,
            Some(mut s) => {
                if s.in_flight {
                    s.restart = true;
                    self.session = Some(s);
                    None
                } else {
                    s.in_flight = true;
                    s.restart = false;
                    let job = FillJob {
                        generation: s.generation,
                        press: share(&s.press),
                        tolerance: s.tolerance,
                        reveal_order: s.animate,
                    };
                    self.session = Some(s);
                    Some(job)
                }
            },
        }
    }

    /// Close the gesture.
    pub fn finish(&mut self) -> (record: Option<FillRecord>)
        ensures
            (final(self)@, record_view(record)) == old(self)@.finish(),
            final(self)@.inv(),
    {
        match self.session.take() {
            None => None,
            Some(s) => match s.current {
                None => None,
                Some(after) => Some(FillRecord { layer_id: s.layer_id, press: s.press, after }),
            },
        }
    }

    /// End the sweep where it is, giving its pump reference back. True says that
    /// one was running.
    pub fn end_animation(&mut self, pump: &mut RenderPump) -> (was: bool)
        ensures
            was == (old(self).reveal is Some),
            final(self)@ == (FillView { reveal: None, ..old(self)@ }),
            *final(pump) == (if was {
                old(pump).disarmed()
            } else {
                *old(pump)
            }),
            old(self)@.inv() ==> final(self)@.inv(),
    {
        if self.reveal.is_none() {
            return false;
        }
        self.reveal = None;
        pump.disarm();
        true
    }

    /// Start the sweep at `now` nanoseconds, holding the pump. True asks for the
    /// pump's tick callback to be put in place.
    pub fn begin_animation(&mut self, pump: &mut RenderPump, now: u64, realized: bool) -> (install:
        bool)
        requires
            old(self).reveal is None,
            old(pump).active < u32::MAX,
            old(self).session matches Some(s) ==> !s.animate,
        ensures
            final(self)@ == (FillView { reveal: Some(now), ..old(self)@ }),
            *final(pump) == old(pump).armed(realized),
            install == (!old(pump).installed && realized),
            old(self)@.inv() ==> final(self)@.inv(),
    {
        self.reveal = Some(now);
        pump.arm(realized)
    }

    /// One frame of the sweep at `now` nanoseconds.
    pub fn reveal_tick(&mut self, pump: &mut RenderPump, overlay: bool, now: u64) -> (t: RevealTick)
        ensures
            t == (match old(self).reveal {
                None => RevealTick::Idle,
                Some(started) => if !overlay {
                    RevealTick::Gone
                } else if reveal_elapsed(started, now) >= REVEAL_MS {
                    RevealTick::Complete
                } else {
                    RevealTick::Show(reveal_elapsed(started, now) as u64)
                },
            }),
            final(self)@ == (FillView {
                reveal: if t is Show {
                    old(self).reveal
                } else {
                    None
                },
                ..old(self)@
            }),
            *final(pump) == (if t is Gone || t is Complete {
                old(pump).disarmed()
            } else {
                *old(pump)
            }),
            old(self)@.inv() ==> final(self)@.inv(),
    {
        match self.reveal {
            None => RevealTick::Idle,
            Some(started) => {
                let elapsed: u64 = if now > started {
                    (now - started) / NANOS_PER_MS
                } else {
                    0
                };
                if !overlay {
                    self.end_animation(pump);
                    RevealTick::Gone
                } else if elapsed >= REVEAL_MS {
                    self.end_animation(pump);
                    RevealTick::Complete
                } else {
                    RevealTick::Show(elapsed)
                }
            },
        }
    }

    /// What a pointer motion means while the button is held or not.
    pub fn motion(&self, held: bool) -> (m: FillMotion)
        ensures
            m == (match self@.session {
                None => FillMotion::Ignore,
                Some(s) => if held {
                    FillMotion::Drag(s.press.origin_x)
                } else {
                    FillMotion::End
                },
            }),
    {
        match &self.session {
            None => FillMotion::Ignore,
            Some(s) => if held {
                FillMotion::Drag(s.press.origin_x)
            } else {
                FillMotion::End
            },
        }
    }

    /// The drag has moved the threshold to `next`, which is the tool's from now on.
    /// Nothing happens where it has not moved.
    pub fn adjust(&mut self, pump: &mut RenderPump, next: u8) -> (r: Option<FillAdjust>)
        ensures
            match old(self)@.session {
                None => {
                    &&& r is None
                    &&& final(self)@ == old(self)@
                    &&& *final(pump) == *old(pump)
                },
                Some(s) => if s.tolerance == next {
                    &&& r is None
                    &&& final(self)@ == old(self)@
                    &&& *final(pump) == *old(pump)
                } else {
                    &&& r matches Some(a)
                    &&& (final(self)@, a.job) == old(self)@.adjusted(next).request()
                    &&& a.uncover == (old(self).reveal is Some)
                    &&& a.announce == (if percent_spec(next) == percent_spec(s.tolerance) {
                        None
                    } else {
                        Some(percent_spec(next) as u32)
                    })
                    &&& *final(pump) == (if old(self).reveal is Some {
                        old(pump).disarmed()
                    } else {
                        *old(pump)
                    })
                },
            },
            old(self)@.inv() ==> final(self)@.inv(),
    {
        match self.session.take() {
            None => None,
            Some(mut s) => {
                if s.tolerance == next {
                    self.session = Some(s);
                    return None;
                }
                let was: u32 = percent(s.tolerance);
                s.tolerance = next;
                s.animate = false;
                self.session = Some(s);
                self.tolerance = next;
                let uncover = self.end_animation(pump);
                let now: u32 = percent(next);
                let announce = if now != was {
                    Some(now)
                } else {
                    None
                };
                let job = self.request();
                Some(FillAdjust { uncover, announce, job })
            },
        }
    }

    /// The pointer is up. The slider catches up with the threshold that the tool has
    /// by now.
    pub fn release(&mut self) -> (r: FillRelease)
        ensures
            match old(self)@.session {
                None => r is Idle && final(self)@ == old(self)@,
                Some(s) => if s.in_flight || s.restart {
                    &&& r == (FillRelease::Waiting { slider: old(self).tolerance })
                    &&& final(self)@ == (FillView {
                        session: Some(SessionView { released: true, ..s }),
                        ..old(self)@
                    })
                } else {
                    &&& r matches FillRelease::Closed { slider, record }
                    &&& slider == old(self).tolerance
                    &&& (final(self)@, record_view(record)) == old(self)@.finish()
                },
            },
            old(self)@.inv() ==> final(self)@.inv(),
    {
        match self.session.take() {
            None => FillRelease::Idle,
            Some(mut s) => {
                s.released = true;
                let done = !s.in_flight && !s.restart;
                self.session = Some(s);
                let slider: u8 = self.tolerance;
                if done {
                    FillRelease::Closed { slider, record: self.finish() }
                } else {
                    FillRelease::Waiting { slider }
                }
            },
        }
    }

    /// A flood for the gesture `generation` is back. `bucket` says that the bucket
    /// is still the active tool, `matched` that the flood reached any pixel.
    ///
    /// The pixels to paint on are always those of the press, so that a threshold
    /// drag replaces the previous fill.
    pub fn arrive(&mut self, generation: u64, bucket: bool, matched: bool) -> (r: FillArrival)
        ensures
            match old(self)@.session {
                None => r is Stale && final(self)@ == old(self)@,
                Some(s) => if s.generation != generation {
                    r is Stale && final(self)@ == old(self)@
                } else if !bucket {
                    &&& r matches FillArrival::Closed(record)
                    &&& (final(self)@, record_view(record)) == old(self)@.finish()
                } else if !matched && s.current is None {
                    &&& r is Unchanged
                    &&& final(self)@ == (FillView {
                        session: Some(SessionView { in_flight: false, ..s }),
                        ..old(self)@
                    })
                } else {
                    &&& r matches FillArrival::Paint { buf, animate }
                    &&& buf@ == s.press.before@
                    &&& animate == (s.animate && matched)
                    &&& final(self)@ == (FillView {
                        session: Some(
                            SessionView {
                                in_flight: false,
                                current: Some(s.press.before@),
                                animate: false,
                                ..s
                            },
                        ),
                        ..old(self)@
                    })
                },
            },
            old(self)@.inv() ==> final(self)@.inv(),
            old(self)@.inv() && (r matches FillArrival::Paint { animate, .. } && animate)
                ==> final(self).reveal is None,
    {
        match self.session.take() {
            None => FillArrival::Stale,
            Some(mut s) => {
                if s.generation != generation {
                    self.session = Some(s);
                    return FillArrival::Stale;
                }
                if !bucket {
                    self.session = Some(s);
                    return FillArrival::Closed(self.finish());
                }
                s.in_flight = false;
                if !matched && s.current.is_none() {
                    self.session = Some(s);
                    return FillArrival::Unchanged;
                }
                let buf = copy_pixels(&s.press.before);
                s.current = Some(copy_pixels(&s.press.before));
                let animate = s.animate && matched;
                s.animate = false;
                self.session = Some(s);
                FillArrival::Paint { buf, animate }
            },
        }
    }

    /// The painted pixels are back. They go to the layer that carries the
    /// gesture's id by now; where none does, the gesture is abandoned.
    pub fn land(&mut self, buf: &Vec<u8>, ids: &Vec<String>) -> (r: FillLanding)
        ensures
            match old(self)@.session {
                None => r is Idle && final(self)@ == old(self)@,
                Some(s) => match layer_place(ids@, s.layer_id) {
                    None => {
                        &&& r is Abandoned
                        &&& final(self)@ == (FillView { session: None, ..old(self)@ })
                    },
                    Some(i) => {
                        &&& r == FillLanding::Layer(i as usize)
                        &&& i <= usize::MAX
                        &&& final(self)@ == (FillView {
                            session: Some(
                                SessionView { layer_idx: i as usize, current: Some(buf@), ..s },
                            ),
                            ..old(self)@
                        })
                    },
                },
            },
            old(self)@.inv() && (old(self)@.session matches Some(s) && s.press.before@.len()
                == buf@.len()) ==> final(self)@.inv(),
    {
        match self.session.take() {
            None => FillLanding::Idle,
            Some(mut s) => match find_layer(ids, &s.layer_id) {
                None => FillLanding::Abandoned,
                Some(i) => {
                    s.layer_idx = i;
                    s.current = Some(copy_pixels(buf));
                    self.session = Some(s);
                    FillLanding::Layer(i)
                },
            },
        }
    }

    /// What follows once a flood has landed: another, if the threshold has moved
    /// meanwhile, or the end, if the pointer is up.
    pub fn settle(&mut self) -> (r: FillNext)
        ensures
            match old(self)@.session {
                None => r is Nothing && final(self)@ == old(self)@,
                Some(s) => if s.restart {
                    let owed = FillView {
                        session: Some(SessionView { restart: false, ..s }),
                        ..old(self)@
                    };
                    &&& final(self)@ == owed.request().0
                    &&& match owed.request().1 {
                        Some(job) => r == FillNext::Flood(job),
                        None => r is Nothing,
                    }
                } else if s.released {
                    &&& r matches FillNext::Closed(record)
                    &&& (final(self)@, record_view(record)) == old(self)@.finish()
                } else {
                    r is Nothing && final(self)@ == old(self)@
                },
            },
            old(self)@.inv() ==> final(self)@.inv(),
    {
        match self.session.take() {
            None => FillNext::Nothing,
            Some(mut s) => {
                let restart = s.restart;
                let released = s.released;
                s.restart = false;
                self.session = Some(s);
                if restart {
                    match self.request() {
                        Some(job) => FillNext::Flood(job),
                        None => FillNext::Nothing,
                    }
                } else if released {
                    FillNext::Closed(self.finish())
                } else {
                    FillNext::Nothing
                }
            },
        }
    }
}

/// Milliseconds of the sweep that have passed at `now`.
pub open spec fn reveal_elapsed(started: u64, now: u64) -> int {
    if now > started {
        (now - started) / (NANOS_PER_MS as int)
    } else {
        0
    }
}

/// A copy of a layer's pixels.
pub fn copy_pixels(pixels: &Vec<u8>) -> (copy: Vec<u8>)
    ensures
        copy@ == pixels@,
{
    let copy = pixels.clone();
    assert(copy@ =~= pixels@);
    copy
}

/// The fill state together with the floods that are running, by the generation
/// of the gesture that asked for each.
pub ghost struct FillWorld {
    pub state: FillView,
    pub running: Multiset<u64>,
}

impl FillWorld {
    /// Exactly the flood that the live session waits for is running on its
    /// behalf, and every other one belongs to an earlier gesture.
    pub open spec fn inv(self) -> bool {
        &&& self.state.inv()
        &&& forall|g: u64| #[trigger] self.running.count(g) > 0 ==> g <= self.state.generation
        &&& self.state.session is Some ==> self.running.count(self.state.generation)
            == self.state.in_flight()
    }

    /// A job, where there is one, starts running.
    pub open spec fn start(self, state: FillView, job: Option<FillJob>) -> FillWorld {
        FillWorld {
            state,
            running: match job {
                Some(job) => self.running.insert(job.generation),
                None => self.running,
            },
        }
    }

    /// The worker of this generation has delivered.
    pub open spec fn deliver(self, generation: u64, state: FillView) -> FillWorld {
        FillWorld { state, running: self.running.remove(generation) }
    }
}

/// Opening a gesture starts its one flood; the floods of earlier gestures stay
/// theirs. (A count of gestures that has wrapped round could meet a flood of the
/// gesture that had the same number, so the law stops short of the last one.)
pub proof fn law_open_starts_one_flood(w: FillWorld, s: SessionView)
    requires
        w.inv(),
        w.state.generation < u64::MAX,
        s.generation == w.state.generation + 1,
        s.in_flight,
        s.current is None,
    ensures
        w.start(
            FillView {
                session: Some(s),
                generation: s.generation,
                reveal: None,
                tolerance: w.state.tolerance,
            },
            Some(s.job()),
        ).inv(),
{
    let after = w.start(
        FillView {
            session: Some(s),
            generation: s.generation,
            reveal: None,
            tolerance: w.state.tolerance,
        },
        Some(s.job()),
    );
    assert(w.running.count(s.generation) == 0);
    assert forall|g: u64| #[trigger] after.running.count(g) > 0 implies g
        <= after.state.generation by {
        assert(g == s.generation || w.running.count(g) > 0);
    }
}

/// Asking for a flood never puts a second one on its way for the same gesture.
pub proof fn law_request_keeps_one_flood(w: FillWorld)
    requires
        w.inv(),
    ensures
        w.start(w.state.request().0, w.state.request().1).inv(),
{
    let (state, job) = w.state.request();
    let after = w.start(state, job);
    assert forall|g: u64| #[trigger] after.running.count(g) > 0 implies g
        <= after.state.generation by {
        assert(g == w.state.generation || w.running.count(g) > 0);
    }
}

/// A flood that outlives its gesture changes nothing when it lands: not the
/// session that is live by then, and not that session's own flood.
pub proof fn law_stale_flood_changes_nothing(w: FillWorld, generation: u64)
    requires
        w.inv(),
        w.running.count(generation) > 0,
        w.state.session is None || w.state.session->Some_0.generation != generation,
    ensures
        w.deliver(generation, w.state).inv(),
{
    let after = w.deliver(generation, w.state);
    assert forall|g: u64| #[trigger] after.running.count(g) > 0 implies g
        <= after.state.generation by {
        assert(w.running.count(g) > 0);
    }
}

/// The live session's flood lands: none is left running for it, so the next one
/// asked for is again the only one.
pub proof fn law_landing_frees_the_worker(w: FillWorld, s: SessionView)
    requires
        w.inv(),
        w.state.session == Some(s),
        w.running.count(s.generation) > 0,
    ensures
        s.in_flight,
        w.deliver(
            s.generation,
            FillView { session: Some(SessionView { in_flight: false, ..s }), ..w.state },
        ).inv(),
        w.deliver(s.generation, w.state.finish().0).inv(),
{
    let landed = FillView { session: Some(SessionView { in_flight: false, ..s }), ..w.state };
    let after = w.deliver(s.generation, landed);
    assert forall|g: u64| #[trigger] after.running.count(g) > 0 implies g
        <= after.state.generation by {
        assert(w.running.count(g) > 0);
    }
}

/// A gesture starts at the threshold of the tool, and while only the drag moves the
/// tool's threshold, the two stay one: neither an adjustment nor a flood that is asked
/// for parts them.
pub proof fn law_the_drag_moves_the_tools_threshold(
    v: FillView,
    layer_idx: usize,
    layer_id: Seq<char>,
    press: FillPress,
    next: u8,
)
    ensures
        ({
            let s = v.opened(layer_idx, layer_id, press).session->Some_0;
            s.base_tolerance == v.tolerance && s.tolerance == v.tolerance
        }),
        v.session is Some ==> {
            let moved = v.adjusted(next).request().0;
            moved.session->Some_0.tolerance == next && moved.tolerance == next
        },
        v.request().0.tolerance == v.tolerance,
{
}

/// The next fill starts from the threshold that the last drag left.
pub proof fn law_the_next_fill_starts_where_the_drag_ended(
    v: FillView,
    next: u8,
    layer_idx: usize,
    layer_id: Seq<char>,
    press: FillPress,
)
    requires
        v.session is Some,
    ensures
        ({
            let over = v.adjusted(next).request().0.finish().0;
            let s = over.opened(layer_idx, layer_id, press).session->Some_0;
            s.base_tolerance == next && s.tolerance == next
        }),
{
}

/// A gesture is recorded once: closing it a second time records nothing.
pub proof fn law_gesture_recorded_once(v: FillView)
    ensures
        v.finish().0.finish().1 is None,
        v.finish().0.finish().0 == v.finish().0,
{
}

/// What the history gets is measured against the pixels of the press, whatever
/// thresholds were tried on the way.
pub proof fn law_record_starts_from_press(v: FillView, s: SessionView)
    requires
        v.inv(),
        v.session == Some(s),
    ensures
        match v.finish().1 {
            Some(r) => {
                &&& r.press == s.press
                &&& r.layer_id == s.layer_id
                &&& Some(r.after) == s.current
                &&& r.after.len() == r.press.before@.len()
            },
            None => s.current is None,
        },
{
}

/// The sweep's hold on the pump: ending it gives back exactly the reference that
/// beginning it took, and ending it again gives back nothing.
pub proof fn law_sweep_releases_pump_once(v: FillView, p: RenderPump, now: u64, realized: bool)
    requires
        v.reveal is None,
        p.active < u32::MAX,
    ensures
        ({
            let running = FillView { reveal: Some(now), ..v };
            let ended = FillView { reveal: None, ..running };
            &&& p.armed(realized).active == p.active + running.pump_share()
            &&& p.armed(realized).disarmed().active == p.active + ended.pump_share()
            &&& ended == v
        }),
{
}

/// A flood that is asked for while one is in flight starts none, and leaves one more
/// owed, whatever the threshold is. Nothing else of the gesture changes.
pub proof fn law_flood_asked_for_in_flight_is_owed(
    f: &mut FillState,
    s: FillSession,
    job: Option<FillJob>,
)
    requires
        call_ensures(FillState::request, (f,), job),
        old(f).session == Some(s),
        s.in_flight,
    ensures
        job is None,
        final(f).session matches Some(t) && t.restart && t@ == (SessionView { restart: true, ..s@ }),
        final(f).generation == old(f).generation,
        final(f).reveal == old(f).reveal,
        final(f).tolerance == old(f).tolerance,
{
}

/// A flood that is asked for while none is in flight starts at the gesture's present
/// threshold, from the pixels of its press, and no other is owed.
pub proof fn law_flood_asked_for_at_rest_starts(
    f: &mut FillState,
    s: FillSession,
    job: Option<FillJob>,
)
    requires
        call_ensures(FillState::request, (f,), job),
        old(f).session == Some(s),
        !s.in_flight,
    ensures
        job matches Some(j) && j.tolerance == s.tolerance && j.generation == s.generation
            && *j.press == *s.press && j.reveal_order == s.animate,
        final(f).session matches Some(t) && t.in_flight && !t.restart && t@ == (SessionView {
            in_flight: true,
            restart: false,
            ..s@
        }),
{
}

/// A flood that is owed follows the one that was in flight: once that one is back and
/// its pixels have landed, settling starts a flood at the threshold that the gesture
/// has by then, whatever that threshold is.
pub proof fn law_owed_flood_follows_at_the_present_threshold(
    asked: &mut FillState,
    job: Option<FillJob>,
    back: &mut FillState,
    matched: bool,
    arrival: FillArrival,
    landed: &mut FillState,
    buf: Vec<u8>,
    ids: Vec<String>,
    landing: FillLanding,
    settled: &mut FillState,
    next: FillNext,
    s: FillSession,
)
    requires
        old(asked).session == Some(s),
        s.in_flight,
        call_ensures(FillState::request, (asked,), job),
        old(back)@ == final(asked)@,
        call_ensures(FillState::arrive, (back, s.generation, true, matched), arrival),
        old(landed)@ == final(back)@,
        call_ensures(FillState::land, (landed, &buf, &ids), landing),
        landing is Layer,
        old(settled)@ == final(landed)@,
        call_ensures(FillState::settle, (settled,), next),
    ensures
        next matches FillNext::Flood(j) && j.tolerance == s.tolerance && j.generation
            == s.generation && *j.press == *s.press,
        final(settled).session matches Some(t) && t.in_flight && !t.restart && t.tolerance
            == s.tolerance && t.released == s.released,
{
}

/// The same where the flood reached no pixel, so that nothing was painted: the one
/// that is owed follows all the same.
pub proof fn law_owed_flood_follows_an_empty_one(
    asked: &mut FillState,
    job: Option<FillJob>,
    back: &mut FillState,
    arrival: FillArrival,
    settled: &mut FillState,
    next: FillNext,
    s: FillSession,
)
    requires
        old(asked).session == Some(s),
        s.in_flight,
        s.current is None,
        call_ensures(FillState::request, (asked,), job),
        old(back)@ == final(asked)@,
        call_ensures(FillState::arrive, (back, s.generation, true, false), arrival),
        old(settled)@ == final(back)@,
        call_ensures(FillState::settle, (settled,), next),
    ensures
        arrival is Unchanged,
        next matches FillNext::Flood(j) && j.tolerance == s.tolerance && j.generation
            == s.generation,
        final(settled).session matches Some(t) && t.in_flight && !t.restart,
{
}

/// Whether the flood that was started last is at the gesture's threshold, or else
/// another one is owed.
pub open spec fn up_to_date(f: FillState, last: u8) -> bool {
    f.session matches Some(s) ==> s.restart || s.tolerance == last
}

/// The threshold of the flood that was started last, after this job.
pub open spec fn last_started(job: Option<FillJob>, last: u8) -> u8 {
    match job {
        Some(j) => j.tolerance,
        None => last,
    }
}

/// A gesture opens with a flood at its own threshold.
pub proof fn law_opening_floods_at_the_threshold(
    f: &mut FillState,
    pump: &mut RenderPump,
    layer_idx: usize,
    layer_id: String,
    press: FillPress,
    r: (FillJob, bool),
)
    requires
        call_ensures(FillState::open, (f, pump, layer_idx, layer_id, press), r),
    ensures
        up_to_date(*final(f), r.0.tolerance),
        r.0.tolerance == old(f).tolerance,
        r.0.generation == old(f).generation.wrapping_add(1),
        *r.0.press == press,
        r.0.reveal_order,
        final(f).session matches Some(s) && s.in_flight && !s.restart && !s.released && s.animate
            && s.current is None && s.layer_idx == layer_idx && s.layer_id@ == layer_id@
            && *s.press == press && s.base_tolerance == old(f).tolerance,
        final(f).tolerance == old(f).tolerance,
        final(f).reveal is None,
{
}

/// Asking for a flood keeps the last one up to date, or owes another.
pub proof fn law_asking_keeps_up_to_date(f: &mut FillState, job: Option<FillJob>, last: u8)
    requires
        call_ensures(FillState::request, (f,), job),
        up_to_date(*old(f), last),
    ensures
        up_to_date(*final(f), last_started(job, last)),
{
}

/// So does moving the threshold, up or down: the flood that was started last is at
/// the new threshold, or another one is owed.
pub proof fn law_dragging_keeps_up_to_date(
    f: &mut FillState,
    pump: &mut RenderPump,
    next: u8,
    r: Option<FillAdjust>,
    last: u8,
)
    requires
        call_ensures(FillState::adjust, (f, pump, next), r),
        up_to_date(*old(f), last),
    ensures
        up_to_date(
            *final(f),
            match r {
                Some(a) => last_started(a.job, last),
                None => last,
            },
        ),
        final(f).session matches Some(s) ==> s.tolerance == next,
        old(f).session is Some <==> final(f).session is Some,
{
}

/// A flood that comes back, and pixels that land, leave the threshold and what is
/// owed as they were.
pub proof fn law_landing_keeps_up_to_date(
    f: &mut FillState,
    generation: u64,
    bucket: bool,
    matched: bool,
    arrival: FillArrival,
    g: &mut FillState,
    buf: Vec<u8>,
    ids: Vec<String>,
    landing: FillLanding,
    last: u8,
)
    requires
        call_ensures(FillState::arrive, (f, generation, bucket, matched), arrival),
        up_to_date(*old(f), last),
        call_ensures(FillState::land, (g, &buf, &ids), landing),
        up_to_date(*old(g), last),
    ensures
        up_to_date(*final(f), last),
        up_to_date(*final(g), last),
        (old(f).session matches Some(s) && final(f).session is Some) ==> ({
            let t = final(f).session->0;
            t.restart == old(f).session->0.restart && t.tolerance == old(f).session->0.tolerance
                && t.released == old(f).session->0.released
        }),
{
}

/// Settling keeps the last flood up to date, and closes a gesture only when the last
/// flood was at the gesture's last threshold.
pub proof fn law_settling_closes_at_the_last_threshold(f: &mut FillState, r: FillNext, last: u8)
    requires
        call_ensures(FillState::settle, (f,), r),
        up_to_date(*old(f), last),
    ensures
        up_to_date(
            *final(f),
            match r {
                FillNext::Flood(j) => j.tolerance,
                _ => last,
            },
        ),
        r is Closed ==> ({
            &&& old(f).session is Some
            &&& old(f).session->0.tolerance == last
            &&& old(f).session->0.released
            &&& !old(f).session->0.restart
        }),
        (old(f).session matches Some(s) && s.released && !s.restart) ==> r is Closed,
{
}

/// The release closes a gesture only when no flood is in flight or owed, so the last
/// one was at the gesture's last threshold; otherwise it is left to the flood.
pub proof fn law_release_closes_at_the_last_threshold(f: &mut FillState, r: FillRelease, last: u8)
    requires
        call_ensures(FillState::release, (f,), r),
        up_to_date(*old(f), last),
    ensures
        up_to_date(*final(f), last),
        r is Closed ==> old(f).session is Some && old(f).session->0.tolerance == last
            && !old(f).session->0.in_flight && final(f).session is None,
        r is Waiting ==> ({
            &&& old(f).session is Some
            &&& old(f).session->0.in_flight || old(f).session->0.restart
            &&& final(f).session is Some
            &&& final(f).session->0.released
        }),
        r is Idle <==> old(f).session is None,
        match r {
            FillRelease::Idle => true,
            FillRelease::Waiting { slider } => slider == old(f).tolerance,
            FillRelease::Closed { slider, .. } => slider == old(f).tolerance,
        },
{
}

/// What closes a gesture hands over the pixels that landed last, for the layer and
/// the press of that gesture, and leaves no session.
pub proof fn law_closing_hands_over_what_landed(
    f: &mut FillState,
    s: FillSession,
    record: Option<FillRecord>,
)
    requires
        call_ensures(FillState::finish, (f,), record),
        old(f).session == Some(s),
    ensures
        final(f).session is None,
        final(f).tolerance == old(f).tolerance,
        final(f).generation == old(f).generation,
        record is Some <==> s.current is Some,
        record matches Some(r) ==> r.layer_id@ == s.layer_id@ && *r.press == *s.press && r.after@
            == s.current->0@,
{
}

/// What a flood that comes back means. One of another gesture changes nothing. One
/// that comes back under another tool closes the gesture. Else the session is at rest
/// again, and is painted on the pixels of the press, unless nothing matched and
/// nothing had been painted.
pub proof fn law_what_an_arrival_means(
    f: &mut FillState,
    generation: u64,
    bucket: bool,
    matched: bool,
    r: FillArrival,
)
    requires
        call_ensures(FillState::arrive, (f, generation, bucket, matched), r),
    ensures
        r is Stale <==> old(f).session is None || old(f).session->0.generation != generation,
        r is Stale ==> final(f)@ == old(f)@,
        r is Closed ==> !bucket && final(f).session is None,
        r is Unchanged ==> !matched && old(f).session->0.current is None
            && final(f).session->0.current is None,
        r matches FillArrival::Paint { buf, animate } ==> {
            &&& bucket
            &&& matched || old(f).session->0.current is Some
            &&& buf@ == old(f).session->0.press.before@
            &&& animate ==> matched && old(f).session->0.animate
            &&& matched && old(f).session->0.animate ==> animate
            &&& !final(f).session->0.animate
        },
        r is Unchanged || r is Paint ==> final(f).session is Some
            && !final(f).session->0.in_flight,
{
}

/// Painted pixels go to the first layer that carries the gesture's id, wherever it
/// stands by now, and the gesture is dropped if none does.
pub proof fn law_pixels_land_on_their_layer(
    f: &mut FillState,
    s: FillSession,
    buf: Vec<u8>,
    ids: Vec<String>,
    r: FillLanding,
)
    requires
        call_ensures(FillState::land, (f, &buf, &ids), r),
        old(f).session == Some(s),
    ensures
        r !is Idle,
        r is Abandoned <==> forall|j: int| 0 <= j < ids@.len() ==> (#[trigger] ids@[j])@
            != s.layer_id@,
        r is Abandoned ==> final(f).session is None,
        r matches FillLanding::Layer(i) ==> {
            &&& i < ids@.len()
            &&& ids@[i as int]@ == s.layer_id@
            &&& forall|j: int| 0 <= j < i ==> (#[trigger] ids@[j])@ != s.layer_id@
            &&& final(f).session is Some
            &&& final(f).session->0.layer_idx == i
            &&& final(f).session->0.current is Some
            &&& final(f).session->0.current->0@ == buf@
        },
{
    lemma_layer_place(ids@, s.layer_id@);
}

/// The percentage that the user sees runs from nothing to a hundred, never falls as
/// the threshold rises, and is the threshold's share of the whole, cut to a whole
/// number.
pub proof fn law_percent_is_the_share(a: u8, b: u8)
    ensures
        a <= b ==> percent_spec(a) <= percent_spec(b),
        255 * percent_spec(a) <= 100 * a,
        100 * a < 255 * (percent_spec(a) + 1),
{
}

/// A threshold drag announces a percentage only when the user would see another one,
/// and then the new one; it uncovers a fill that was being swept in, and gives the
/// sweep's hold on the pump back.
pub proof fn law_dragging_announces_what_changes(
    f: &mut FillState,
    pump: &mut RenderPump,
    next: u8,
    r: Option<FillAdjust>,
)
    requires
        call_ensures(FillState::adjust, (f, pump, next), r),
    ensures
        r is Some <==> old(f).session is Some && old(f).session->0.tolerance != next,
        r is None ==> final(f)@ == old(f)@ && *final(pump) == *old(pump),
        r matches Some(a) ==> {
            &&& a.announce is Some <==> percent_spec(next) != percent_spec(
                old(f).session->0.tolerance,
            )
            &&& a.announce matches Some(p) ==> p == percent_spec(next)
            &&& a.uncover <==> old(f).reveal is Some
            &&& final(f).reveal is None
            &&& final(f).tolerance == next
            &&& !final(f).session->0.animate
            &&& final(f).session->0.base_tolerance == old(f).session->0.base_tolerance
            &&& a.job is None <==> old(f).session->0.in_flight
            &&& a.job matches Some(j) ==> j.tolerance == next && !j.reveal_order
        },
{
}

/// What a fill works on: the layer, the mask of a selection and of nothing else, and
/// the composite only where all layers are sampled. What a fill needs and could not
/// be read stops it; what is above the layer never does.
pub proof fn law_what_a_fill_works_on(
    layer: Option<Vec<u8>>,
    selected: bool,
    mask: Option<Vec<u8>>,
    sample_all: bool,
    composite: Option<Vec<u8>>,
    above: Option<Vec<u8>>,
    r: Option<PressPixels>,
)
    requires
        call_ensures(press_pixels, (layer, selected, mask, sample_all, composite, above), r),
    ensures
        r is Some <==> layer is Some && (selected ==> mask is Some) && (sample_all
            ==> composite is Some),
        r matches Some(p) ==> {
            &&& Some(p.before) == layer
            &&& p.mask is Some <==> selected
            &&& selected ==> p.mask == mask
            &&& p.sample is Some <==> sample_all
            &&& sample_all ==> p.sample == composite && p.occluders == above
            &&& !sample_all ==> p.occluders is None
        },
{
}

/// A pressed pixel seeds a fill exactly when it lies on the canvas, and is the seed
/// itself.
pub proof fn law_seed_is_the_pressed_pixel(
    x: i32,
    y: i32,
    width: u32,
    height: u32,
    r: Option<(u32, u32)>,
)
    requires
        call_ensures(seed_pixel, (x, y, width, height), r),
    ensures
        r is Some <==> x >= 0 && y >= 0 && x < width && y < height,
        r matches Some(p) ==> p.0 == x && p.1 == y,
{
}

/// The sweep shows as much as time has passed, and is over after its length or when
/// its overlay is gone; then, and only then, it lets go of the pump.
pub proof fn law_sweep_runs_its_length(
    f: &mut FillState,
    pump: &mut RenderPump,
    overlay: bool,
    now: u64,
    t: RevealTick,
)
    requires
        call_ensures(FillState::reveal_tick, (f, pump, overlay, now), t),
    ensures
        t is Idle <==> old(f).reveal is None,
        t is Gone <==> old(f).reveal is Some && !overlay,
        t is Complete <==> old(f).reveal is Some && overlay && now >= old(f).reveal->0
            + 400_000_000,
        t matches RevealTick::Show(ms) ==> {
            &&& ms < 400
            &&& now <= old(f).reveal->0 ==> ms == 0
            &&& now > old(f).reveal->0 ==> ms * 1_000_000 <= now - old(f).reveal->0 < (ms + 1)
                * 1_000_000
        },
        t is Show ==> final(f).reveal == old(f).reveal && *final(pump) == *old(pump),
        !(t is Show) ==> final(f).reveal is None,
        t is Gone || t is Complete ==> *final(pump) == old(pump).disarmed(),
{
}

/// A motion means a drag, measured from where the press was, while the button is
/// held, and the end of the gesture once it is not; without a gesture it means
/// nothing.
pub proof fn law_what_a_motion_means(f: FillState, held: bool, m: FillMotion)
    requires
        call_ensures(FillState::motion, (&f, held), m),
    ensures
        m is Ignore <==> f.session is None,
        m is End <==> f.session is Some && !held,
        m is Drag <==> f.session is Some && held,
        m matches FillMotion::Drag(x) ==> x == f.session->0.press.origin_x,
{
}

/// A sweep begins at its moment and holds the pump; ending it lets go of the pump exactly
/// where one was running. The slider sets the tool's threshold and no gesture's.
pub proof fn law_sweeps_and_the_slider(
    a: &mut FillState,
    p: &mut RenderPump,
    now: u64,
    realized: bool,
    install: bool,
    b: &mut FillState,
    q: &mut RenderPump,
    was: bool,
    c: &mut FillState,
    tolerance: u8,
)
    requires
        old(a).reveal is None,
        old(p).active < u32::MAX,
        old(a).session matches Some(s) ==> !s.animate,
        call_ensures(FillState::begin_animation, (a, p, now, realized), install),
        call_ensures(FillState::end_animation, (b, q), was),
        call_ensures(FillState::set_tolerance, (c, tolerance), ()),
    ensures
        final(a).reveal == Some(now),
        final(p).active == old(p).active + 1,
        install <==> realized && !old(p).installed,
        was <==> old(b).reveal is Some,
        final(b).reveal is None,
        was && old(q).active > 0 ==> final(q).active == old(q).active - 1,
        !was ==> *final(q) == *old(q),
        final(b)@.session == old(b)@.session,
        final(c).tolerance == tolerance,
        final(c)@.session == old(c)@.session && final(c).reveal == old(c).reveal,
{
}

/// Whether two sessions are of the same gesture: pressed at the same moment, at the same
/// threshold, and on the same layer.
pub open spec fn same_gesture(a: SessionView, b: SessionView) -> bool {
    &&& a.generation == b.generation
    &&& a.layer_id == b.layer_id
    &&& a.press == b.press
    &&& a.base_tolerance == b.base_tolerance
}

/// A request, a drag of the threshold and a release leave a gesture that goes on the one
/// it was: they change nothing of what it was pressed on, nor of what it has painted.
pub proof fn law_a_gesture_stays_what_was_pressed(
    a: &mut FillState,
    job: Option<FillJob>,
    b: &mut FillState,
    p: &mut RenderPump,
    next: u8,
    moved: Option<FillAdjust>,
    c: &mut FillState,
    up: FillRelease,
)
    requires
        old(a).session is Some,
        call_ensures(FillState::request, (a,), job),
        old(b).session is Some,
        call_ensures(FillState::adjust, (b, p, next), moved),
        call_ensures(FillState::release, (c,), up),
    ensures
        ({
            let before = old(a)@.session->0;
            let after = final(a)@.session->0;
            &&& final(a)@.session is Some && same_gesture(before, after)
            &&& after.tolerance == before.tolerance && after.current == before.current
            &&& after.released == before.released && after.animate == before.animate
            &&& after.layer_idx == before.layer_idx
            &&& final(a).tolerance == old(a).tolerance && final(a).reveal == old(a).reveal
        }),
        ({
            let before = old(b)@.session->0;
            let after = final(b)@.session->0;
            &&& final(b)@.session is Some && same_gesture(before, after)
            &&& after.current == before.current && after.released == before.released
            &&& after.layer_idx == before.layer_idx
            &&& after.tolerance == next
            &&& next != before.tolerance ==> !after.animate && final(b).reveal is None
                && final(b).tolerance == next
        }),
        final(c)@.session is Some ==> old(c)@.session is Some && same_gesture(
            old(c)@.session->0,
            final(c)@.session->0,
        ) && final(c)@.session->0.released && final(c)@.session->0.tolerance == old(
            c,
        )@.session->0.tolerance && final(c)@.session->0.current == old(c)@.session->0.current
            && final(c)@.session->0.layer_idx == old(c)@.session->0.layer_idx,
        final(a).generation == old(a).generation,
        final(b).generation == old(b).generation,
        final(c).generation == old(c).generation,
        final(c).tolerance == old(c).tolerance && final(c).reveal == old(c).reveal,
{
}

/// A flood that is back, its pixels and what follows them leave a gesture that goes on
/// the one it was, at the threshold it had.
pub proof fn law_a_landing_flood_keeps_the_gesture(
    a: &mut FillState,
    generation: u64,
    bucket: bool,
    matched: bool,
    arrival: FillArrival,
    b: &mut FillState,
    buf: Vec<u8>,
    ids: Vec<String>,
    landing: FillLanding,
    c: &mut FillState,
    next: FillNext,
)
    requires
        call_ensures(FillState::arrive, (a, generation, bucket, matched), arrival),
        old(b).session is Some ==> old(b)@.session->0.press.before@.len() == buf@.len(),
        call_ensures(FillState::land, (b, &buf, &ids), landing),
        call_ensures(FillState::settle, (c,), next),
    ensures
        final(a)@.session is Some ==> old(a)@.session is Some && same_gesture(
            old(a)@.session->0,
            final(a)@.session->0,
        ) && final(a)@.session->0.tolerance == old(a)@.session->0.tolerance
            && final(a)@.session->0.released == old(a)@.session->0.released,
        final(b)@.session is Some ==> old(b)@.session is Some && same_gesture(
            old(b)@.session->0,
            final(b)@.session->0,
        ) && final(b)@.session->0.tolerance == old(b)@.session->0.tolerance
            && final(b)@.session->0.released == old(b)@.session->0.released,
        final(c)@.session is Some ==> old(c)@.session is Some && same_gesture(
            old(c)@.session->0,
            final(c)@.session->0,
        ) && final(c)@.session->0.tolerance == old(c)@.session->0.tolerance
            && final(c)@.session->0.current == old(c)@.session->0.current
            && final(c)@.session->0.released == old(c)@.session->0.released,
        final(a).tolerance == old(a).tolerance && final(a).generation == old(a).generation
            && final(a).reveal == old(a).reveal,
        final(b).tolerance == old(b).tolerance && final(b).generation == old(b).generation
            && final(b).reveal == old(b).reveal,
        final(c).tolerance == old(c).tolerance && final(c).generation == old(c).generation
            && final(c).reveal == old(c).reveal,
{
}

} // verus!

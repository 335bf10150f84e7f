//! Pointer input against the frame clock: how late events are, and which samples
//! a frame is drawn between.

use vstd::prelude::*;

use crate::geometry::Point;
use crate::ieee::Double;

verus! {

/// How long an estimate of the delay holds, five hundred milliseconds.
pub const OFFSET_WINDOW_MS: u64 = 0x407f_4000_0000_0000;

/// Samples closer together than this, half a millisecond, are one.
pub const SAME_MOMENT_MS: u64 = 0x3fe0_0000_0000_0000;

/// The lesser of two measures; one that is no number gives way.
pub open spec fn lesser_spec(a: Double, b: Double) -> Double {
    if a.nan() || b.lt_spec(a) {
        b
    } else {
        a
    }
}

/// The lesser of two measures; one that is no number gives way.
pub fn lesser(a: Double, b: Double) -> (r: Double)
    ensures
        r == lesser_spec(a, b),
{
    if a.is_nan() || b.less(a) {
        b
    } else {
        a
    }
}

/// The least delay of events against this process's clock, over windows.
///
/// Every event arrives some time after it happened. The least delay seen stands
/// for the difference of the two clocks, and it is taken afresh from each window
/// so that one too small does not hold for good.
#[derive(Clone, Copy, Debug, PartialEq, Eq, Structural)]
pub struct EventClock {
    pub offset_ms: Option<Double>,
    pub window_min_ms: Option<Double>,
    pub window_started_ms: Double,
}

/// The least of a delay and those before it.
pub open spec fn least(before: Option<Double>, delay: Double) -> Double {
    match before {
        Some(b) => lesser_spec(b, delay),
        None => delay,
    }
}

impl EventClock {
    /// No event seen.
    pub fn new(now: Double) -> (c: EventClock)
        ensures
            c == (EventClock { offset_ms: None, window_min_ms: None, window_started_ms: now }),
    {
        EventClock { offset_ms: None, window_min_ms: None, window_started_ms: now }
    }

    /// The clock after an event that came `delay` late at `now`, `elapsed` into
    /// the window.
    pub open spec fn observed(self, now: Double, delay: Double, elapsed: Double) -> EventClock {
        let offset = Some(least(self.offset_ms, delay));
        let window = Some(least(self.window_min_ms, delay));
        if (Double { bits: OFFSET_WINDOW_MS }).le_spec(elapsed) {
            EventClock { offset_ms: window, window_min_ms: None, window_started_ms: now }
        } else {
            EventClock { offset_ms: offset, window_min_ms: window, ..self }
        }
    }

    /// An event came `delay` late at `now`, `elapsed` into the window.
    pub fn observe(&mut self, now: Double, delay: Double, elapsed: Double)
        ensures
            *final(self) == old(self).observed(now, delay, elapsed),
    {
        let offset = match self.offset_ms {
            Some(o) => lesser(o, delay),
            None => delay,
        };
        let window = match self.window_min_ms {
            Some(m) => lesser(m, delay),
            None => delay,
        };
        if (Double { bits: OFFSET_WINDOW_MS }).at_most(elapsed) {
            self.offset_ms = Some(window);
            self.window_min_ms = None;
            self.window_started_ms = now;
        } else {
            self.offset_ms = Some(offset);
            self.window_min_ms = Some(window);
        }
    }
}

/// Once an event has been seen there is an estimate, and it never exceeds the
/// delay just seen: no event is placed later than it arrived.
pub proof fn law_offset_bounds_the_delay(c: EventClock, now: Double, delay: Double, elapsed: Double)
    requires
        !delay.nan(),
        c.offset_ms matches Some(o) ==> !o.nan(),
        c.window_min_ms matches Some(m) ==> !m.nan(),
    ensures
        c.observed(now, delay, elapsed).offset_ms matches Some(o) && !o.nan() && o.le_spec(delay),
        c.observed(now, delay, elapsed).window_min_ms matches Some(m) ==> !m.nan() && m.le_spec(
            delay,
        ),
{
}

/// Within a window the estimate only shrinks.
pub proof fn law_offset_shrinks_within_window(
    c: EventClock,
    o: Double,
    now: Double,
    delay: Double,
    elapsed: Double,
)
    requires
        c.offset_ms == Some(o),
        !o.nan(),
        !delay.nan(),
        !(Double { bits: OFFSET_WINDOW_MS }).le_spec(elapsed),
    ensures
        c.observed(now, delay, elapsed).offset_ms matches Some(after) && after.le_spec(o),
{
}

/// A sample: when and where.
#[derive(Clone, Copy, Debug, PartialEq, Eq, Structural)]
pub struct Moment {
    pub t: Double,
    pub at: Point,
}

/// The two newest samples of the pointer and the usual time between two.
#[derive(Clone, Copy, Debug, PartialEq, Eq, Structural)]
pub struct PointerResampler {
    pub prev: Option<Moment>,
    pub last: Option<Moment>,
    pub interval_ms: Option<Double>,
}

/// What a frame is drawn from.
#[derive(Clone, Copy, Debug, PartialEq, Eq, Structural)]
pub enum Placement {
    /// No sample yet.
    Unknown,
    /// The only sample there is.
    At(Point),
    /// On the line through the two newest samples, given the usual interval.
    Along { from: Moment, to: Moment, interval: Double },
}

/// Where on the line through the two newest samples a frame falls.
#[derive(Clone, Copy, Debug, PartialEq, Eq, Structural)]
pub enum Reach {
    /// Between the two, or before both.
    Between,
    /// Beyond the newer one, by as much as time has gone on.
    Ahead,
    /// So far beyond it that the way ahead is taken back: the pointer has stopped.
    Unwinding,
}

/// Where a frame falls that is drawn for the moment `target`. `newest` is the
/// moment of the newer sample, `ahead` how far beyond it the frame is, and
/// `max_ahead` how far a frame may run ahead.
pub fn reach(target: Double, newest: Double, ahead: Double, max_ahead: Double) -> (r: Reach)
    ensures
        r == (if target.le_spec(newest) {
            Reach::Between
        } else if ahead.le_spec(max_ahead) {
            Reach::Ahead
        } else {
            Reach::Unwinding
        }),
{
    if target.at_most(newest) {
        Reach::Between
    } else if ahead.at_most(max_ahead) {
        Reach::Ahead
    } else {
        Reach::Unwinding
    }
}

impl PointerResampler {
    /// No sample.
    pub open spec fn empty() -> PointerResampler {
        PointerResampler { prev: None, last: None, interval_ms: None }
    }

    /// No sample.
    pub fn new() -> (r: PointerResampler)
        ensures
            r == PointerResampler::empty(),
    {
        PointerResampler { prev: None, last: None, interval_ms: None }
    }

    /// Forget every sample.
    pub fn begin(&mut self)
        ensures
            *final(self) == PointerResampler::empty(),
    {
        *self = PointerResampler::new();
    }

    /// Take a sample that came `since` after the last one; `interval` is the
    /// usual time between two, with this one counted in. Samples of one moment
    /// are one: the later tells where it was.
    pub fn push_at(&mut self, t: Double, at: Point, since: Double, interval: Double)
        ensures
            *final(self) == (match old(self).last {
                None => PointerResampler { prev: None, last: Some(Moment { t, at }), ..*old(self) },
                Some(last) => if since.lt_spec(Double { bits: SAME_MOMENT_MS }) {
                    PointerResampler { last: Some(Moment { t: last.t, at }), ..*old(self) }
                } else {
                    PointerResampler {
                        prev: Some(last),
                        last: Some(Moment { t, at }),
                        interval_ms: Some(interval),
                    }
                },
            }),
    {
        if let Some(last) = self.last {
            if since.less(Double { bits: SAME_MOMENT_MS }) {
                self.last = Some(Moment { t: last.t, at });
                return;
            }
            self.interval_ms = Some(interval);
        }
        self.prev = self.last;
        self.last = Some(Moment { t, at });
    }

    /// What a frame is drawn from.
    pub fn placement(&self) -> (p: Placement)
        ensures
            p == (match self.last {
                None => Placement::Unknown,
                Some(to) => match (self.prev, self.interval_ms) {
                    (Some(from), Some(interval)) => Placement::Along { from, to, interval },
                    _ => Placement::At(to.at),
                },
            }),
    {
        match self.last {
            None => Placement::Unknown,
            Some(to) => match (self.prev, self.interval_ms) {
                (Some(from), Some(interval)) => Placement::Along { from, to, interval },
                _ => Placement::At(to.at),
            },
        }
    }
}

/// The lesser of two measures is one of them and above neither; one that is no number
/// gives way to one that is.
pub proof fn law_the_lesser_measure(a: Double, b: Double)
    ensures
        lesser_spec(a, b) == a || lesser_spec(a, b) == b,
        !a.nan() && !b.nan() ==> lesser_spec(a, b).le_spec(a) && lesser_spec(a, b).le_spec(b),
        a.nan() ==> lesser_spec(a, b) == b,
        b.nan() && !a.nan() ==> lesser_spec(a, b) == a,
{
}

/// At the end of a window the estimate is the least delay of that window alone, whatever
/// the estimate was before, and a new window begins at that moment with nothing seen.
/// Within a window it is the least delay of all that counted, and the window goes on.
pub proof fn law_each_window_is_estimated_afresh(
    c: &mut EventClock,
    now: Double,
    delay: Double,
    elapsed: Double,
)
    requires
        call_ensures(EventClock::observe, (c, now, delay, elapsed), ()),
    ensures
        ({
            let over = (Double { bits: 0x407f_4000_0000_0000 }).le_spec(elapsed);
            &&& over ==> final(c).window_started_ms == now && final(c).window_min_ms is None
            &&& over && old(c).window_min_ms is None ==> final(c).offset_ms == Some(delay)
            &&& over && old(c).window_min_ms is Some ==> final(c).offset_ms == Some(
                lesser_spec(old(c).window_min_ms->0, delay),
            )
            &&& !over ==> final(c).window_started_ms == old(c).window_started_ms
            &&& !over && old(c).window_min_ms is None ==> final(c).window_min_ms == Some(delay)
            &&& !over && old(c).window_min_ms is Some ==> final(c).window_min_ms == Some(
                lesser_spec(old(c).window_min_ms->0, delay),
            )
            &&& !over && old(c).offset_ms is None ==> final(c).offset_ms == Some(delay)
            &&& !over && old(c).offset_ms is Some ==> final(c).offset_ms == Some(
                lesser_spec(old(c).offset_ms->0, delay),
            )
        }),
{
}

/// A frame before the newest sample lies between samples, one after it runs ahead as
/// far as it may, and beyond that the way is taken back.
pub proof fn law_where_a_frame_falls(
    target: Double,
    newest: Double,
    ahead: Double,
    max_ahead: Double,
    r: Reach,
)
    requires
        call_ensures(reach, (target, newest, ahead, max_ahead), r),
    ensures
        r is Between <==> target.le_spec(newest),
        newest.lt_spec(target) && ahead.le_spec(max_ahead) ==> r is Ahead,
        newest.lt_spec(target) && max_ahead.lt_spec(ahead) ==> r is Unwinding,
{
}

/// A frame is drawn from the samples that came last: from nothing before the first, from
/// the first alone until there is a second, and from then on along the two newest, the
/// older first. A sample of the same moment as the last one only moves that one.
pub proof fn law_a_frame_is_drawn_from_the_newest_samples(
    a: &mut PointerResampler,
    none: Placement,
    b: &mut PointerResampler,
    t: Double,
    at: Point,
    s0: Double,
    i0: Double,
    one: Placement,
    c: &mut PointerResampler,
    u: Double,
    to: Point,
    since: Double,
    interval: Double,
    two: Placement,
)
    requires
        call_ensures(PointerResampler::begin, (a,), ()),
        call_ensures(PointerResampler::placement, (&*final(a),), none),
        *old(b) == *final(a),
        call_ensures(PointerResampler::push_at, (b, t, at, s0, i0), ()),
        call_ensures(PointerResampler::placement, (&*final(b),), one),
        *old(c) == *final(b),
        call_ensures(PointerResampler::push_at, (c, u, to, since, interval), ()),
        call_ensures(PointerResampler::placement, (&*final(c),), two),
    ensures
        none is Unknown,
        one == Placement::At(at),
        since.lt_spec(Double { bits: 0x3fe0_0000_0000_0000 }) ==> two == Placement::At(to)
            && final(c).last == Some(Moment { t, at: to }),
        !since.lt_spec(Double { bits: 0x3fe0_0000_0000_0000 }) ==> two == (Placement::Along {
            from: Moment { t, at },
            to: Moment { t: u, at: to },
            interval,
        }),
{
}

/// A third sample takes the place of the oldest one.
pub proof fn law_a_sample_replaces_the_oldest(
    c: &mut PointerResampler,
    t: Double,
    at: Point,
    since: Double,
    interval: Double,
)
    requires
        old(c).last is Some,
        call_ensures(PointerResampler::push_at, (c, t, at, since, interval), ()),
    ensures
        ({
            let same = since.lt_spec(Double { bits: 0x3fe0_0000_0000_0000 });
            &&& !same ==> final(c).prev == old(c).last && final(c).last == Some(Moment { t, at })
                && final(c).interval_ms == Some(interval)
            &&& same ==> final(c).prev == old(c).prev && final(c).interval_ms == old(c).interval_ms
                && final(c).last == Some(Moment { t: old(c).last->0.t, at })
        }),
{
}

/// A window goes on from where it started until it is over, and one that is over starts
/// the next at the moment of the event. A sample takes nothing from the usual time
/// between two, unless it is the next of them.
pub proof fn law_windows_and_intervals_go_on(
    c: &mut EventClock,
    now: Double,
    delay: Double,
    elapsed: Double,
    r: &mut PointerResampler,
    t: Double,
    at: Point,
    since: Double,
    interval: Double,
)
    requires
        call_ensures(EventClock::observe, (c, now, delay, elapsed), ()),
        call_ensures(PointerResampler::push_at, (r, t, at, since, interval), ()),
    ensures
        (Double { bits: 0x407f_4000_0000_0000 }).le_spec(elapsed) ==> final(c).window_started_ms
            == now && final(c).window_min_ms is None,
        !(Double { bits: 0x407f_4000_0000_0000 }).le_spec(elapsed) ==> final(c).window_started_ms
            == old(c).window_started_ms && final(c).window_min_ms is Some,
        old(r).last is None ==> final(r).interval_ms == old(r).interval_ms && final(r).prev is None
            && final(r).last == Some(Moment { t, at }),
        old(r).last is Some && since.lt_spec(Double { bits: 0x3fe0_0000_0000_0000 })
            ==> final(r).interval_ms == old(r).interval_ms && final(r).prev == old(r).prev,
        old(r).last is Some && !since.lt_spec(Double { bits: 0x3fe0_0000_0000_0000 })
            ==> final(r).interval_ms == Some(interval) && final(r).prev == old(r).last,
{
}

} // verus!

//! Dabs released over time, so that a stroke's tip moves evenly.
//!
//! The brush engine emits the dabs of a whole segment at once. They are held
//! here, each with the time at which it is due, and every frame stamps those
//! that have come due, in stroke order.

use std::collections::VecDeque;

use vstd::prelude::*;
use vstd::std_specs::vecdeque::*;

use crate::ieee::{Double, INFINITY_64};

verus! {

broadcast use vstd::std_specs::vecdeque::group_vec_dequeue_axioms;

/// The longest replay of a segment, in milliseconds.
pub const MAX_SPAN_MS: u64 = 16;

/// How a brush lays paint down. A pattern is told by a number.
#[derive(Clone, Copy, Debug, PartialEq, Eq, Structural)]
pub enum BrushFamily {
    SoftRound,
    Smudge,
    Pixel,
    Textured(u64),
    ImageTip(u64),
}

/// Dabs that came due together, in stroke order.
pub struct DueRun<D> {
    pub family: BrushFamily,
    pub dabs: Vec<D>,
}

/// Dabs that were emitted together, with the times at which they are due.
pub struct Run<D> {
    pub family: BrushFamily,
    pub dabs: VecDeque<D>,
    pub reveal_ms: VecDeque<Double>,
}

/// Dabs that wait for their time.
pub struct DeferredDabs<D> {
    pub family: Option<BrushFamily>,
    pub now_ms: Double,
    pub runs: VecDeque<Run<D>>,
}

/// A run as a value.
#[verifier::reject_recursive_types(D)]
pub ghost struct RunView<D> {
    pub family: BrushFamily,
    pub dabs: Seq<D>,
    pub reveal_ms: Seq<Double>,
}

/// A due run as a value.
#[verifier::reject_recursive_types(D)]
pub ghost struct DueView<D> {
    pub family: BrushFamily,
    pub dabs: Seq<D>,
}

impl<D> View for Run<D> {
    type V = RunView<D>;

    open spec fn view(&self) -> RunView<D> {
        RunView { family: self.family, dabs: self.dabs@, reveal_ms: self.reveal_ms@ }
    }
}

impl<D> View for DueRun<D> {
    type V = DueView<D>;

    open spec fn view(&self) -> DueView<D> {
        DueView { family: self.family, dabs: self.dabs@ }
    }
}

/// The runs as values.
pub open spec fn run_views<D>(runs: Seq<Run<D>>) -> Seq<RunView<D>> {
    Seq::new(runs.len(), |i: int| runs[i]@)
}

/// The due runs as values.
pub open spec fn due_views<D>(runs: Seq<DueRun<D>>) -> Seq<DueView<D>> {
    Seq::new(runs.len(), |i: int| runs[i]@)
}

/// How many of the times from the front on are due.
pub open spec fn due_count(reveal_ms: Seq<Double>, now: Double) -> nat
    decreases reveal_ms.len(),
{
    if reveal_ms.len() > 0 && reveal_ms[0].le_spec(now) {
        1 + due_count(reveal_ms.skip(1), now)
    } else {
        0
    }
}

impl<D> RunView<D> {
    /// Every dab has its time, and there is one.
    pub open spec fn wf(self) -> bool {
        self.dabs.len() == self.reveal_ms.len() && self.dabs.len() > 0
    }

    /// The run without its first `n` dabs.
    pub open spec fn without(self, n: int) -> RunView<D> {
        RunView {
            family: self.family,
            dabs: self.dabs.skip(n),
            reveal_ms: self.reveal_ms.skip(n),
        }
    }
}

/// What is released at a time: run by run, the dabs that are due from the front
/// on, up to the first that is not.
pub open spec fn released<D>(runs: Seq<RunView<D>>, now: Double) -> Seq<DueView<D>>
    decreases runs.len(),
{
    if runs.len() == 0 {
        Seq::empty()
    } else {
        let run = runs[0];
        let n = due_count(run.reveal_ms, now) as int;
        let head = if n > 0 {
            seq![DueView { family: run.family, dabs: run.dabs.take(n) }]
        } else {
            Seq::empty()
        };
        if n == run.dabs.len() {
            head + released(runs.skip(1), now)
        } else {
            head
        }
    }
}

/// What still waits after a release.
pub open spec fn waiting<D>(runs: Seq<RunView<D>>, now: Double) -> Seq<RunView<D>>
    decreases runs.len(),
{
    if runs.len() == 0 {
        Seq::empty()
    } else {
        let run = runs[0];
        let n = due_count(run.reveal_ms, now) as int;
        if n == run.dabs.len() {
            waiting(runs.skip(1), now)
        } else {
            seq![run.without(n)] + runs.skip(1)
        }
    }
}

/// Every run is well-formed.
pub open spec fn runs_wf<D>(runs: Seq<RunView<D>>) -> bool {
    forall|i: int| 0 <= i < runs.len() ==> (#[trigger] runs[i]).wf()
}

impl<D> DeferredDabs<D> {
    /// The runs as values.
    pub open spec fn queue(self) -> Seq<RunView<D>> {
        run_views(self.runs@)
    }

    /// Every run is well-formed.
    pub open spec fn wf(self) -> bool {
        runs_wf(self.queue())
    }

    /// Nothing waits.
    pub fn new() -> (d: DeferredDabs<D>)
        ensures
            d.queue() == Seq::<RunView<D>>::empty(),
            d.family is None,
            d.now_ms == (Double { bits: 0 }),
            d.wf(),
    {
        let d = DeferredDabs {
            family: None,
            now_ms: Double { bits: 0 },
            runs: VecDeque::new(),
        };
        assert(d.queue() =~= Seq::empty());
        d
    }

    /// A new stroke: drop what waits.
    pub fn begin(&mut self)
        ensures
            final(self).queue() == Seq::<RunView<D>>::empty(),
            final(self).family is None,
            final(self).now_ms == (Double { bits: 0 }),
            final(self).wf(),
    {
        self.runs = VecDeque::new();
        self.family = None;
        self.now_ms = Double { bits: 0 };
        assert(self.queue() =~= Seq::empty());
    }

    /// The engine is about to see the sample of this time.
    pub fn begin_sample(&mut self, event_ms: Double)
        ensures
            final(self).now_ms == event_ms,
            final(self).family == old(self).family,
            final(self).queue() == old(self).queue(),
    {
        self.now_ms = event_ms;
    }

    /// The dabs that follow are of this family.
    pub fn set_family(&mut self, family: BrushFamily)
        ensures
            final(self).family == Some(family),
            final(self).now_ms == old(self).now_ms,
            final(self).queue() == old(self).queue(),
    {
        self.family = Some(family);
    }

    /// Dabs wait for their times, in stroke order; soft and round where no family
    /// was told.
    pub fn push_run(&mut self, dabs: Vec<D>, reveal_ms: Vec<Double>)
        requires
            dabs@.len() == reveal_ms@.len(),
            old(self).wf(),
        ensures
            final(self).wf(),
            final(self).family == old(self).family,
            final(self).now_ms == old(self).now_ms,
            final(self).queue() == (if dabs@.len() == 0 {
                old(self).queue()
            } else {
                old(self).queue().push(
                    RunView {
                        family: match old(self).family {
                            Some(f) => f,
                            None => BrushFamily::SoftRound,
                        },
                        dabs: dabs@,
                        reveal_ms: reveal_ms@,
                    },
                )
            }),
    {
        if dabs.len() == 0 {
            return;
        }
        let family = match self.family {
            Some(f) => f,
            None => BrushFamily::SoftRound,
        };
        let ghost before = self.queue();
        let ghost all_dabs = dabs@;
        let ghost all_times = reveal_ms@;
        let run = Run { family, dabs: to_deque(dabs), reveal_ms: to_deque(reveal_ms) };
        let ghost view = run@;
        self.runs.push_back(run);
        proof {
            let after = self.queue();
            assert(after =~= before.push(view));
            assert forall|i: int| 0 <= i < after.len() implies (#[trigger] after[i]).wf() by {
                if i < before.len() {
                    assert(after[i] == before[i]);
                }
            }
        }
    }

    /// Dabs that belong to no segment are due at once.
    pub fn paint_dabs(&mut self, dabs: Vec<D>)
        requires
            old(self).wf(),
        ensures
            final(self).wf(),
            final(self).family == old(self).family,
            final(self).now_ms == old(self).now_ms,
            final(self).queue() == (if dabs@.len() == 0 {
                old(self).queue()
            } else {
                old(self).queue().push(
                    RunView {
                        family: match old(self).family {
                            Some(f) => f,
                            None => BrushFamily::SoftRound,
                        },
                        dabs: dabs@,
                        reveal_ms: Seq::new(dabs@.len(), |i: int| old(self).now_ms),
                    },
                )
            }),
    {
        let now = self.now_ms;
        let mut times: Vec<Double> = Vec::with_capacity(dabs.len());
        let mut i: usize = 0;
        while i < dabs.len()
            invariant
                i <= dabs.len(),
                times@ == Seq::new(i as nat, |k: int| now),
            decreases dabs.len() - i,
        {
            times.push(now);
            assert(times@ =~= Seq::new((i + 1) as nat, |k: int| now));
            i = i + 1;
        }
        self.push_run(dabs, times);
    }

    /// Everything that is due at `now`, in stroke order.
    pub fn take_until(&mut self, now: Double) -> (out: Vec<DueRun<D>>)
        requires
            old(self).wf(),
        ensures
            due_views(out@) == released(old(self).queue(), now),
            final(self).queue() == waiting(old(self).queue(), now),
            final(self).wf(),
            final(self).family == old(self).family,
            final(self).now_ms == old(self).now_ms,
    {
        let mut out: Vec<DueRun<D>> = Vec::new();
        let ghost start = self.queue();
        assert(due_views(out@) + released(self.queue(), now) =~= released(start, now));
        loop
            invariant_except_break
                self.wf(),
                self.family == old(self).family,
                self.now_ms == old(self).now_ms,
                due_views(out@) + released(self.queue(), now) == released(start, now),
                waiting(self.queue(), now) == waiting(start, now),
            ensures
                self.wf(),
                self.family == old(self).family,
                self.now_ms == old(self).now_ms,
                due_views(out@) == released(start, now),
                self.queue() == waiting(start, now),
            decreases self.runs@.len(),
        {
            let ghost queue = self.queue();
            match self.runs.pop_front() {
                None => {
                    assert(queue =~= Seq::empty());
                    assert(self.queue() =~= Seq::empty());
                    assert(due_views(out@) =~= released(start, now));
                    break;
                },
                Some(mut run) => {
                    let ghost whole = run@;
                    assert(queue[0] == whole);
                    assert(whole.wf());
                    assert(self.queue() =~= queue.skip(1));
                    let mut dabs: Vec<D> = Vec::new();
                    let ghost mut n: int = 0;
                    proof {
                        assert(whole.reveal_ms.skip(0) =~= whole.reveal_ms);
                        assert(whole.dabs.skip(0) =~= whole.dabs);
                    }
                    while run.reveal_ms.len() > 0 && run.reveal_ms[0].at_most(now)
                        invariant
                            0 <= n <= whole.dabs.len(),
                            whole.wf(),
                            run.family == whole.family,
                            run.dabs@ == whole.dabs.skip(n),
                            run.reveal_ms@ == whole.reveal_ms.skip(n),
                            dabs@ == whole.dabs.take(n),
                            due_count(whole.reveal_ms, now) == n + due_count(
                                run.reveal_ms@,
                                now,
                            ),
                        decreases run.reveal_ms@.len(),
                    {
                        let ghost times = run.reveal_ms@;
                        assert(times[0].le_spec(now));
                        run.reveal_ms.pop_front();
                        assert(run.reveal_ms@ =~= times.skip(1));
                        assert(run.reveal_ms@ =~= whole.reveal_ms.skip(n + 1));
                        match run.dabs.pop_front() {
                            Some(dab) => {
                                dabs.push(dab);
                                assert(run.dabs@ =~= whole.dabs.skip(n + 1));
                                assert(dabs@ =~= whole.dabs.take(n + 1));
                            },
                            None => {
                                assert(false);
                            },
                        }
                        proof {
                            n = n + 1;
                        }
                    }
                    assert(due_count(run.reveal_ms@, now) == 0);
                    assert(due_count(whole.reveal_ms, now) == n);
                    let ghost so_far = due_views(out@);
                    let ghost head = if n > 0 {
                        seq![DueView { family: whole.family, dabs: whole.dabs.take(n) }]
                    } else {
                        Seq::empty()
                    };
                    if dabs.len() > 0 {
                        out.push(DueRun { family: run.family, dabs });
                    }
                    assert(due_views(out@) =~= so_far + head);
                    if run.dabs.len() == 0 {
                        assert(n == whole.dabs.len());
                        proof {
                            assert(released(queue, now) =~= head + released(queue.skip(1), now));
                            assert(so_far + (head + released(queue.skip(1), now)) =~= (so_far
                                + head) + released(queue.skip(1), now));
                            let rest = self.queue();
                            assert forall|i: int| 0 <= i < rest.len() implies (
                            #[trigger] rest[i]).wf() by {
                                assert(rest[i] == queue[i + 1]);
                            }
                        }
                    } else {
                        let ghost left = run@;
                        assert(left == whole.without(n));
                        let ghost rest = self.queue();
                        self.runs.push_front(run);
                        proof {
                            assert(self.queue() =~= seq![left] + rest);
                            assert(waiting(queue, now) == seq![left] + queue.skip(1));
                            assert(released(queue, now) =~= head);
                            let q = self.queue();
                            assert forall|i: int| 0 <= i < q.len() implies (
                            #[trigger] q[i]).wf() by {
                                if i > 0 {
                                    assert(q[i] == queue[i]);
                                }
                            }
                        }
                        break;
                    }
                },
            }
        }
        out
    }

    /// Everything that is due, in stroke order, given what time it is in the
    /// input's clock; nothing before the first input, when that is not known.
    pub fn take_due(&mut self, now: Option<Double>) -> (out: Vec<DueRun<D>>)
        requires
            old(self).wf(),
        ensures
            match now {
                Some(at) => due_views(out@) == released(old(self).queue(), at)
                    && final(self).queue() == waiting(old(self).queue(), at),
                None => out@.len() == 0 && final(self).queue() == old(self).queue(),
            },
            final(self).wf(),
            final(self).family == old(self).family,
            final(self).now_ms == old(self).now_ms,
    {
        match now {
            Some(at) => self.take_until(at),
            None => Vec::new(),
        }
    }

    /// Everything that waits, in stroke order.
    pub fn take_all(&mut self) -> (out: Vec<DueRun<D>>)
        requires
            old(self).wf(),
        ensures
            due_views(out@) == released(old(self).queue(), Double { bits: INFINITY_64 }),
            final(self).queue() == waiting(old(self).queue(), Double { bits: INFINITY_64 }),
            final(self).wf(),
            final(self).family == old(self).family,
            final(self).now_ms == old(self).now_ms,
    {
        self.take_until(Double { bits: INFINITY_64 })
    }
}

/// A list as a queue.
fn to_deque<T>(items: Vec<T>) -> (q: VecDeque<T>)
    ensures
        q@ == items@,
{
    let mut rest = items;
    let mut q: VecDeque<T> = VecDeque::new();
    let ghost all = rest@;
    assert(rest@ + q@ =~= all);
    while rest.len() > 0
        invariant
            rest@ + q@ == all,
        decreases rest@.len(),
    {
        match rest.pop() {
            Some(item) => {
                q.push_front(item);
                assert(rest@ + q@ =~= all);
            },
            None => {},
        }
    }
    assert(q@ =~= all);
    q
}

/// Milliseconds over which a segment is replayed: as long as it took, up to a
/// limit, so that the tip catches up after the input has stalled.
pub fn segment_span(from_ms: u64, to_ms: u64) -> (span: u64)
    ensures
        span == (if to_ms <= from_ms {
            0
        } else if to_ms - from_ms > MAX_SPAN_MS {
            MAX_SPAN_MS as int
        } else {
            to_ms - from_ms
        }),
        span <= MAX_SPAN_MS,
{
    if to_ms <= from_ms {
        0
    } else if to_ms - from_ms > MAX_SPAN_MS {
        MAX_SPAN_MS
    } else {
        to_ms - from_ms
    }
}

/// One dab with its family, as it goes into the stroke.
#[verifier::reject_recursive_types(D)]
pub ghost struct Stamp<D> {
    pub family: BrushFamily,
    pub dab: D,
}

/// The dabs of due runs, one after another.
pub open spec fn due_stamps<D>(runs: Seq<DueView<D>>) -> Seq<Stamp<D>>
    decreases runs.len(),
{
    if runs.len() == 0 {
        Seq::empty()
    } else {
        Seq::new(
            runs[0].dabs.len(),
            |i: int| Stamp { family: runs[0].family, dab: runs[0].dabs[i] },
        ) + due_stamps(runs.skip(1))
    }
}

/// The dabs of waiting runs, one after another.
pub open spec fn run_stamps<D>(runs: Seq<RunView<D>>) -> Seq<Stamp<D>>
    decreases runs.len(),
{
    if runs.len() == 0 {
        Seq::empty()
    } else {
        Seq::new(
            runs[0].dabs.len(),
            |i: int| Stamp { family: runs[0].family, dab: runs[0].dabs[i] },
        ) + run_stamps(runs.skip(1))
    }
}

proof fn lemma_due_count_bound(reveal_ms: Seq<Double>, now: Double)
    ensures
        due_count(reveal_ms, now) <= reveal_ms.len(),
    decreases reveal_ms.len(),
{
    if reveal_ms.len() > 0 && reveal_ms[0].le_spec(now) {
        lemma_due_count_bound(reveal_ms.skip(1), now);
    }
}

/// A release loses nothing, repeats nothing and reorders nothing: what comes out
/// followed by what waits on is what waited, each dab with its family. However
/// the releases fall in time, the stroke they put together is the same.
pub proof fn law_release_keeps_the_stroke<D>(runs: Seq<RunView<D>>, now: Double)
    requires
        runs_wf(runs),
    ensures
        due_stamps(released(runs, now)) + run_stamps(waiting(runs, now)) == run_stamps(runs),
        runs_wf(waiting(runs, now)),
    decreases runs.len(),
{
    if runs.len() > 0 {
        let run = runs[0];
        let rest = runs.skip(1);
        let n = due_count(run.reveal_ms, now) as int;
        lemma_due_count_bound(run.reveal_ms, now);
        assert(run.wf());
        assert forall|i: int| 0 <= i < rest.len() implies (#[trigger] rest[i]).wf() by {
            assert(rest[i] == runs[i + 1]);
        }
        let head = if n > 0 {
            seq![DueView { family: run.family, dabs: run.dabs.take(n) }]
        } else {
            Seq::empty()
        };
        let all = Seq::new(
            run.dabs.len(),
            |i: int| Stamp { family: run.family, dab: run.dabs[i] },
        );
        lemma_head_stamps(run, n, head);
        if n == run.dabs.len() {
            law_release_keeps_the_stroke(rest, now);
            assert(all.take(n) =~= all);
            let tail = released(rest, now);
            assert(released(runs, now) == head + tail);
            lemma_due_stamps_split(head, tail);
            assert(due_stamps(head) + due_stamps(tail) + run_stamps(waiting(rest, now)) =~= all + (
            due_stamps(tail) + run_stamps(waiting(rest, now))));
        } else {
            let left = run.without(n);
            let w = waiting(runs, now);
            assert(w == seq![left] + rest);
            assert(w[0] == left);
            assert(w.skip(1) =~= rest);
            assert(released(runs, now) == head);
            let left_stamps = Seq::new(
                left.dabs.len(),
                |i: int| Stamp { family: left.family, dab: left.dabs[i] },
            );
            assert(left_stamps =~= all.skip(n));
            assert(all.take(n) + (all.skip(n) + run_stamps(rest)) =~= all + run_stamps(rest));
            assert forall|i: int| 0 <= i < w.len() implies (#[trigger] w[i]).wf() by {
                if i > 0 {
                    assert(w[i] == rest[i - 1]);
                }
            }
        }
    }
}

proof fn lemma_head_stamps<D>(run: RunView<D>, n: int, head: Seq<DueView<D>>)
    requires
        0 <= n <= run.dabs.len(),
        head == (if n > 0 {
            seq![DueView { family: run.family, dabs: run.dabs.take(n) }]
        } else {
            Seq::empty()
        }),
    ensures
        due_stamps(head) == Seq::new(
            run.dabs.len(),
            |i: int| Stamp { family: run.family, dab: run.dabs[i] },
        ).take(n),
{
    let all = Seq::new(run.dabs.len(), |i: int| Stamp { family: run.family, dab: run.dabs[i] });
    if n > 0 {
        reveal_with_fuel(due_stamps, 2);
        assert(head.skip(1) =~= Seq::empty());
        assert(due_stamps(head) =~= all.take(n));
    } else {
        assert(due_stamps(head) =~= all.take(n));
    }
}

proof fn lemma_due_stamps_split<D>(a: Seq<DueView<D>>, b: Seq<DueView<D>>)
    ensures
        due_stamps(a + b) == due_stamps(a) + due_stamps(b),
    decreases a.len(),
{
    if a.len() == 0 {
        assert(a + b =~= b);
        assert(due_stamps(a) + due_stamps(b) =~= due_stamps(b));
    } else {
        lemma_due_stamps_split(a.skip(1), b);
        assert((a + b).skip(1) =~= a.skip(1) + b);
        let first = Seq::new(
            a[0].dabs.len(),
            |i: int| Stamp { family: a[0].family, dab: a[0].dabs[i] },
        );
        assert(first + (due_stamps(a.skip(1)) + due_stamps(b)) =~= (first + due_stamps(a.skip(1)))
            + due_stamps(b));
    }
}

/// Taking everything leaves nothing, as long as every time is a number.
pub proof fn law_take_all_leaves_nothing<D>(runs: Seq<RunView<D>>)
    requires
        runs_wf(runs),
        forall|i: int, j: int|
            0 <= i < runs.len() && 0 <= j < runs[i].reveal_ms.len()
                ==> !(#[trigger] runs[i].reveal_ms[j]).nan(),
    ensures
        waiting(runs, Double { bits: INFINITY_64 }) == Seq::<RunView<D>>::empty(),
    decreases runs.len(),
{
    if runs.len() > 0 {
        let run = runs[0];
        let rest = runs.skip(1);
        assert(run.wf());
        assert forall|j: int| 0 <= j < run.reveal_ms.len() implies !(
        #[trigger] run.reveal_ms[j]).nan() by {
            assert(!runs[0].reveal_ms[j].nan());
        }
        lemma_all_due(run.reveal_ms);
        assert forall|i: int| 0 <= i < rest.len() implies (#[trigger] rest[i]).wf() by {
            assert(rest[i] == runs[i + 1]);
        }
        assert forall|i: int, j: int|
            0 <= i < rest.len() && 0 <= j < rest[i].reveal_ms.len() implies !(
        #[trigger] rest[i].reveal_ms[j]).nan() by {
            assert(!runs[i + 1].reveal_ms[j].nan());
        }
        law_take_all_leaves_nothing(rest);
    }
}

proof fn lemma_all_due(reveal_ms: Seq<Double>)
    requires
        forall|j: int| 0 <= j < reveal_ms.len() ==> !(#[trigger] reveal_ms[j]).nan(),
    ensures
        due_count(reveal_ms, Double { bits: INFINITY_64 }) == reveal_ms.len(),
    decreases reveal_ms.len(),
{
    if reveal_ms.len() > 0 {
        assert(!reveal_ms[0].nan());
        let rest = reveal_ms.skip(1);
        assert forall|j: int| 0 <= j < rest.len() implies !(#[trigger] rest[j]).nan() by {
            assert(!reveal_ms[j + 1].nan());
        }
        lemma_all_due(rest);
    }
}

/// What is due of a row of times is the longest row from the front on of which each has
/// come: all that count are due, and the next one is not.
pub proof fn law_due_is_up_to_the_first_that_is_not(reveal_ms: Seq<Double>, now: Double)
    ensures
        due_count(reveal_ms, now) <= reveal_ms.len(),
        forall|i: int|
            0 <= i < due_count(reveal_ms, now) ==> (#[trigger] reveal_ms[i]).le_spec(now),
        due_count(reveal_ms, now) < reveal_ms.len() ==> !reveal_ms[due_count(
            reveal_ms,
            now,
        ) as int].le_spec(now),
    decreases reveal_ms.len(),
{
    if reveal_ms.len() > 0 && reveal_ms[0].le_spec(now) {
        let rest = reveal_ms.skip(1);
        law_due_is_up_to_the_first_that_is_not(rest, now);
        assert forall|i: int| 0 <= i < due_count(reveal_ms, now) implies (
        #[trigger] reveal_ms[i]).le_spec(now) by {
            if i > 0 {
                assert(reveal_ms[i] == rest[i - 1]);
            }
        }
    }
}

/// The times of the waiting runs, one after another.
pub open spec fn run_times<D>(runs: Seq<RunView<D>>) -> Seq<Double>
    decreases runs.len(),
{
    if runs.len() == 0 {
        Seq::empty()
    } else {
        runs[0].reveal_ms + run_times(runs.skip(1))
    }
}

proof fn lemma_due_joined(a: Seq<Double>, b: Seq<Double>, now: Double)
    ensures
        due_count(a + b, now) == (if due_count(a, now) == a.len() {
            a.len() + due_count(b, now)
        } else {
            due_count(a, now)
        }),
        due_count(a, now) <= a.len(),
    decreases a.len(),
{
    if a.len() == 0 {
        assert(a + b =~= b);
    } else {
        assert((a + b).skip(1) =~= a.skip(1) + b);
        if a[0].le_spec(now) {
            lemma_due_joined(a.skip(1), b, now);
        }
    }
}

/// A release is cut by time alone, not by how the dabs were emitted: as many dabs come
/// out as are due of all the waiting times put in one row.
pub proof fn law_release_is_cut_by_time_alone<D>(runs: Seq<RunView<D>>, now: Double)
    requires
        runs_wf(runs),
    ensures
        due_stamps(released(runs, now)).len() == due_count(run_times(runs), now),
        waiting(runs, now).len() > 0 ==> waiting(runs, now)[0].wf() && !waiting(
            runs,
            now,
        )[0].reveal_ms[0].le_spec(now),
    decreases runs.len(),
{
    if runs.len() > 0 {
        let run = runs[0];
        let rest = runs.skip(1);
        let n = due_count(run.reveal_ms, now) as int;
        assert(run.wf());
        assert forall|i: int| 0 <= i < rest.len() implies (#[trigger] rest[i]).wf() by {
            assert(rest[i] == runs[i + 1]);
        }
        law_due_is_up_to_the_first_that_is_not(run.reveal_ms, now);
        lemma_due_joined(run.reveal_ms, run_times(rest), now);
        let head = if n > 0 {
            seq![DueView { family: run.family, dabs: run.dabs.take(n) }]
        } else {
            Seq::empty()
        };
        lemma_head_stamps(run, n, head);
        if n == run.dabs.len() {
            law_release_is_cut_by_time_alone(rest, now);
            lemma_due_stamps_split(head, released(rest, now));
        } else {
            assert(waiting(runs, now)[0] == run.without(n));
            assert(run.without(n).reveal_ms[0] == run.reveal_ms[n]);
        }
    }
}

/// Before anything is due a release brings nothing and leaves all that waits.
pub proof fn law_nothing_comes_out_early<D>(runs: Seq<RunView<D>>, now: Double)
    requires
        runs_wf(runs),
        runs.len() > 0,
        !runs[0].reveal_ms[0].le_spec(now),
    ensures
        released(runs, now) == Seq::<DueView<D>>::empty(),
        waiting(runs, now) == runs,
{
    assert(runs[0].wf());
    assert(due_count(runs[0].reveal_ms, now) == 0);
    assert(runs[0].without(0).dabs =~= runs[0].dabs);
    assert(runs[0].without(0).reveal_ms =~= runs[0].reveal_ms);
    assert(seq![runs[0]] + runs.skip(1) =~= runs);
}

/// Dabs that are emitted wait behind those that are there, with the family that was told
/// last, each with its own time; without a segment, with the time of the sample that the
/// engine sees. No dabs leave nothing waiting.
pub proof fn law_emitted_dabs_wait_at_the_end<D>(
    d: &mut DeferredDabs<D>,
    dabs: Vec<D>,
    times: Vec<Double>,
    e: &mut DeferredDabs<D>,
    more: Vec<D>,
    k: int,
)
    requires
        dabs@.len() == times@.len(),
        old(d).wf(),
        call_ensures(DeferredDabs::<D>::push_run, (d, dabs, times), ()),
        old(e).wf(),
        call_ensures(DeferredDabs::<D>::paint_dabs, (e, more), ()),
    ensures
        dabs@.len() == 0 ==> final(d).queue() == old(d).queue(),
        dabs@.len() > 0 ==> {
            let last = final(d).queue().last();
            &&& final(d).queue().drop_last() == old(d).queue()
            &&& last.dabs == dabs@ && last.reveal_ms == times@
            &&& old(d).family is Some ==> last.family == old(d).family->0
            &&& old(d).family is None ==> last.family == BrushFamily::SoftRound
        },
        more@.len() == 0 ==> final(e).queue() == old(e).queue(),
        more@.len() > 0 ==> {
            let last = final(e).queue().last();
            &&& final(e).queue().drop_last() == old(e).queue()
            &&& last.dabs == more@ && last.reveal_ms.len() == more@.len()
            &&& 0 <= k < more@.len() ==> last.reveal_ms[k] == old(e).now_ms
            &&& old(e).family is Some ==> last.family == old(e).family->0
            &&& old(e).family is None ==> last.family == BrushFamily::SoftRound
        },
{
    if dabs@.len() > 0 {
        assert(final(d).queue().drop_last() =~= old(d).queue());
    }
    if more@.len() > 0 {
        assert(final(e).queue().drop_last() =~= old(e).queue());
    }
}

/// Before the first input nothing comes out; from then on what is due by the input's
/// clock. A new stroke waits with nothing, and with no family.
pub proof fn law_what_a_frame_takes<D>(
    d: &mut DeferredDabs<D>,
    now: Option<Double>,
    out: Vec<DueRun<D>>,
    e: &mut DeferredDabs<D>,
)
    requires
        old(d).wf(),
        call_ensures(DeferredDabs::<D>::take_due, (d, now), out),
        call_ensures(DeferredDabs::<D>::begin, (e,), ()),
    ensures
        now is None ==> out@.len() == 0 && final(d).queue() == old(d).queue(),
        now matches Some(at) ==> due_stamps(due_views(out@)).len() == due_count(
            run_times(old(d).queue()),
            at,
        ),
        now is Some ==> due_stamps(due_views(out@)) + run_stamps(final(d).queue()) == run_stamps(
            old(d).queue(),
        ),
        final(e).queue().len() == 0 && final(e).family is None,
{
    if let Some(at) = now {
        law_release_is_cut_by_time_alone(old(d).queue(), at);
        law_release_keeps_the_stroke(old(d).queue(), at);
    }
}

/// A segment is replayed as long as it took, up to the limit, and at once where time
/// stood still or ran back.
pub proof fn law_a_segment_is_replayed_as_long_as_it_took(from_ms: u64, to_ms: u64, span: u64)
    requires
        call_ensures(segment_span, (from_ms, to_ms), span),
    ensures
        span <= 16,
        to_ms <= from_ms ==> span == 0,
        from_ms <= to_ms && to_ms - from_ms <= 16 ==> span == to_ms - from_ms,
        to_ms > from_ms + 16 ==> span == 16,
{
}

/// The family and the time that are told hold for the dabs that follow, and change
/// nothing of those that wait.
pub proof fn law_family_and_time_are_told_ahead<D>(
    a: &mut DeferredDabs<D>,
    family: BrushFamily,
    b: &mut DeferredDabs<D>,
    event_ms: Double,
    c: &mut DeferredDabs<D>,
    dabs: Vec<D>,
)
    requires
        old(a).wf(),
        call_ensures(DeferredDabs::<D>::set_family, (a, family), ()),
        old(b).family == final(a).family,
        old(b).queue() == final(a).queue(),
        call_ensures(DeferredDabs::<D>::begin_sample, (b, event_ms), ()),
        old(c).family == final(b).family,
        old(c).now_ms == final(b).now_ms,
        old(c).queue() == final(b).queue(),
        old(c).wf(),
        call_ensures(DeferredDabs::<D>::paint_dabs, (c, dabs), ()),
        dabs@.len() > 0,
    ensures
        final(b).queue() == old(a).queue(),
        final(c).queue().last().family == family,
        final(c).queue().last().dabs == dabs@,
        final(c).queue().last().reveal_ms[0] == event_ms,
        final(c).queue().len() == old(a).queue().len() + 1,
{
}

/// Taking all takes what is due at the end of time.
pub proof fn law_taking_all_takes_every_timed_dab<D>(d: &mut DeferredDabs<D>, out: Vec<DueRun<D>>)
    requires
        old(d).wf(),
        forall|i: int, j: int|
            0 <= i < old(d).queue().len() && 0 <= j < old(d).queue()[i].reveal_ms.len()
                ==> !(#[trigger] old(d).queue()[i].reveal_ms[j]).nan(),
        call_ensures(DeferredDabs::<D>::take_all, (d,), out),
    ensures
        final(d).queue().len() == 0,
        due_stamps(due_views(out@)) == run_stamps(old(d).queue()),
{
    let queue = old(d).queue();
    law_take_all_leaves_nothing(queue);
    law_release_keeps_the_stroke(queue, Double { bits: INFINITY_64 });
    let none = Seq::<RunView<D>>::empty();
    assert(due_stamps(due_views(out@)) + run_stamps(none) =~= due_stamps(due_views(out@)));
}

} // verus!

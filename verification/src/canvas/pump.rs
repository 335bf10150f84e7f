//! Frame-clock pacing: the render pump that keeps the clock running during an
//! interaction, and the ease that glides the view rotation to a stop.

use vstd::prelude::*;

use crate::ieee::Single;

verus! {

/// Keeps the frame clock updating during an interactive drag, so the canvas is
/// presented at a steady rate whatever the timing of the input events.
///
/// `active` counts the interactions that hold the pump. One tick callback runs
/// while any does, and `installed` says that it is in place.
#[derive(Clone, Copy, Debug, PartialEq, Eq, Structural)]
pub struct RenderPump {
    pub active: u32,
    pub installed: bool,
}

/// What the pump's tick callback does in one frame.
#[derive(Clone, Copy, Debug, PartialEq, Eq, Structural)]
pub enum PumpTick {
    /// Remove the callback: no interaction is left.
    Stop,
    /// The canvas changed: present it again.
    Present,
    /// Only the view may have moved: repaint what is there.
    Repaint,
}

impl RenderPump {
    /// The pump after one more interaction has joined. The tick can only be put
    /// in place on a widget that exists.
    pub open spec fn armed(self, realized: bool) -> RenderPump {
        RenderPump {
            active: (self.active + 1) as u32,
            installed: self.installed || realized,
        }
    }

    /// The pump after one interaction has left.
    pub open spec fn disarmed(self) -> RenderPump {
        RenderPump {
            active: if self.active == 0 {
                0
            } else {
                (self.active - 1) as u32
            },
            installed: self.installed,
        }
    }

    /// A pump that no interaction holds.
    pub fn new() -> (p: RenderPump)
        ensures
            p == (RenderPump { active: 0, installed: false }),
    {
        RenderPump { active: 0, installed: false }
    }

    /// Begin or join an interaction. True asks for the tick callback to be put
    /// in place: it is not running yet and there is a widget to run it on.
    pub fn arm(&mut self, realized: bool) -> (install: bool)
        requires
            old(self).active < u32::MAX,
        ensures
            *final(self) == old(self).armed(realized),
            install == (!old(self).installed && realized),
    {
        self.active = self.active + 1;
        if self.installed {
            false
        } else {
            self.installed = realized;
            realized
        }
    }

    /// End one interaction; the tick stops once the last one has ended.
    pub fn disarm(&mut self)
        ensures
            *final(self) == old(self).disarmed(),
    {
        if self.active > 0 {
            self.active = self.active - 1;
        }
    }

    /// One frame of the tick callback. `changed` says that presenting would put
    /// other pixels on the screen.
    pub fn tick(&mut self, changed: bool) -> (t: PumpTick)
        ensures
            final(self).active == old(self).active,
            final(self).installed == (old(self).installed && old(self).active != 0),
            t == (if old(self).active == 0 {
                PumpTick::Stop
            } else if changed {
                PumpTick::Present
            } else {
                PumpTick::Repaint
            }),
    {
        if self.active == 0 {
            self.installed = false;
            PumpTick::Stop
        } else if changed {
            PumpTick::Present
        } else {
            PumpTick::Repaint
        }
    }
}

/// Leaving an interaction undoes joining it: the count is back where it was, and
/// the tick stays in place until it finds the count at nought.
pub proof fn law_disarm_undoes_arm(p: RenderPump, realized: bool)
    requires
        p.active < u32::MAX,
    ensures
        p.armed(realized).disarmed().active == p.active,
        p.armed(realized).active > 0,
{
}

/// The pump after a run of moves: `true` joins an interaction, `false` leaves one.
pub open spec fn run(p: RenderPump, moves: Seq<bool>) -> RenderPump
    decreases moves.len(),
{
    if moves.len() == 0 {
        p
    } else {
        let before = run(p, moves.drop_last());
        if moves.last() {
            before.armed(true)
        } else {
            before.disarmed()
        }
    }
}

/// Joins minus leaves among the moves.
pub open spec fn balance(moves: Seq<bool>) -> int
    decreases moves.len(),
{
    if moves.len() == 0 {
        0
    } else {
        balance(moves.drop_last()) + if moves.last() {
            1int
        } else {
            -1int
        }
    }
}

/// Every interaction counts once: as long as no interaction leaves that has not
/// joined, the pump holds exactly those that have joined and not left, so it is
/// held until the last of them leaves and no longer.
pub proof fn law_pump_counts_interactions(moves: Seq<bool>)
    requires
        moves.len() < u32::MAX,
        forall|n: int| 0 <= n <= moves.len() ==> balance(#[trigger] moves.take(n)) >= 0,
    ensures
        run(RenderPump { active: 0, installed: false }, moves).active == balance(moves),
    decreases moves.len(),
{
    if moves.len() > 0 {
        let rest = moves.drop_last();
        assert forall|n: int| 0 <= n <= rest.len() implies balance(#[trigger] rest.take(n)) >= 0 by {
            assert(rest.take(n) =~= moves.take(n));
        }
        law_pump_counts_interactions(rest);
        assert(moves.take(moves.len() as int) =~= moves);
        assert(rest =~= moves.take(rest.len() as int));
        lemma_balance_bound(rest);
    }
}

proof fn lemma_balance_bound(moves: Seq<bool>)
    ensures
        balance(moves) <= moves.len(),
    decreases moves.len(),
{
    if moves.len() > 0 {
        lemma_balance_bound(moves.drop_last());
    }
}

/// The ease that turns the view to an angle over a few frames. `target` is the
/// angle it glides to, if it is gliding; `last_time` is the frame time of the
/// previous step in microseconds, 0 before the first.
#[derive(Clone, Copy, Debug, PartialEq, Eq, Structural)]
pub struct RotationAnimator {
    pub target: Option<Single>,
    pub installed: bool,
    pub last_time: i64,
}

/// How much time one step of the ease covers.
#[derive(Clone, Copy, Debug, PartialEq, Eq, Structural)]
pub enum EaseInterval {
    /// The first step after a start: one frame's worth.
    FirstFrame,
    /// Microseconds since the previous step.
    Micros(i64),
}

/// What one frame of the ease does.
#[derive(Clone, Copy, Debug, PartialEq, Eq, Structural)]
pub enum EaseStep {
    /// Nothing to glide to any more: remove the callback.
    Stop,
    /// Close enough: turn to this angle and remove the callback.
    Settle(Single),
    /// Move part of the way to this angle.
    Toward(Single, EaseInterval),
}

impl RotationAnimator {
    /// An ease at rest.
    pub fn new() -> (a: RotationAnimator)
        ensures
            a == (RotationAnimator { target: None, installed: false, last_time: 0 }),
    {
        RotationAnimator { target: None, installed: false, last_time: 0 }
    }

    /// Aim at an angle, starting the tick where it is not running. True asks for
    /// the tick callback to be put in place.
    pub fn animate_to(&mut self, target: Single, realized: bool) -> (install: bool)
        ensures
            install == (!old(self).installed && realized),
            *final(self) == (RotationAnimator {
                target: Some(target),
                installed: old(self).installed || realized,
                last_time: if !old(self).installed && realized {
                    0
                } else {
                    old(self).last_time
                },
            }),
    {
        self.target = Some(target);
        if self.installed || !realized {
            return false;
        }
        self.installed = true;
        self.last_time = 0;
        true
    }

    /// Stop the ease where it is.
    pub fn cancel(&mut self)
        ensures
            *final(self) == (RotationAnimator { target: None, ..*old(self) }),
    {
        self.target = None;
    }

    /// One frame at `now` microseconds; `near` says that the view is within the
    /// settling distance of the target.
    pub fn tick(&mut self, near: bool, now: i64) -> (s: EaseStep)
        requires
            i64::MIN <= now - old(self).last_time <= i64::MAX,
        ensures
            match old(self).target {
                None => {
                    &&& s == EaseStep::Stop
                    &&& *final(self) == (RotationAnimator { installed: false, ..*old(self) })
                },
                Some(target) => if near {
                    &&& s == EaseStep::Settle(target)
                    &&& *final(self) == (RotationAnimator {
                        target: None,
                        installed: false,
                        last_time: old(self).last_time,
                    })
                } else {
                    &&& *final(self) == (RotationAnimator { last_time: now, ..*old(self) })
                    &&& s == EaseStep::Toward(
                        target,
                        if old(self).last_time == 0 {
                            EaseInterval::FirstFrame
                        } else {
                            EaseInterval::Micros((now - old(self).last_time) as i64)
                        },
                    )
                },
            },
    {
        match self.target {
            None => {
                self.installed = false;
                EaseStep::Stop
            },
            Some(target) => {
                if near {
                    self.target = None;
                    self.installed = false;
                    EaseStep::Settle(target)
                } else {
                    let last: i64 = self.last_time;
                    self.last_time = now;
                    let interval = if last == 0 {
                        EaseInterval::FirstFrame
                    } else {
                        EaseInterval::Micros(now - last)
                    };
                    EaseStep::Toward(target, interval)
                }
            },
        }
    }
}

/// Joining holds the pump once more, and asks for the tick exactly where it was not in
/// place and can be put there; it then is, and stays.
pub proof fn law_joining_puts_the_tick_in_place_once(
    p: &mut RenderPump,
    realized: bool,
    install: bool,
)
    requires
        old(p).active < u32::MAX,
        call_ensures(RenderPump::arm, (p, realized), install),
    ensures
        final(p).active == old(p).active + 1,
        install <==> final(p).installed && !old(p).installed,
        old(p).installed ==> final(p).installed,
        realized ==> final(p).installed,
        !realized ==> !install,
{
}

/// Leaving lets go of the pump once, never below nought, and leaves the tick in place.
pub proof fn law_leaving_lets_go_once(p: &mut RenderPump)
    requires
        call_ensures(RenderPump::disarm, (p,), ()),
    ensures
        old(p).active > 0 ==> final(p).active == old(p).active - 1,
        old(p).active == 0 ==> final(p).active == 0,
        final(p).installed == old(p).installed,
{
}

/// The tick goes exactly where nothing holds the pump; else it presents what changed and
/// repaints what did not. It never changes who holds the pump.
pub proof fn law_the_tick_runs_while_the_pump_is_held(p: &mut RenderPump, changed: bool, t: PumpTick)
    requires
        call_ensures(RenderPump::tick, (p, changed), t),
    ensures
        t is Stop <==> old(p).active == 0,
        t is Present <==> old(p).active > 0 && changed,
        t is Stop ==> !final(p).installed,
        !(t is Stop) ==> final(p).installed == old(p).installed,
        final(p).active == old(p).active,
{
}

/// An ease glides to the angle it was last aimed at, and asks for its tick exactly where
/// that was not in place and can be put there; a fresh tick starts its clock anew.
pub proof fn law_an_ease_glides_where_it_was_last_aimed(
    a: &mut RotationAnimator,
    first: Single,
    realized: bool,
    install: bool,
    b: &mut RotationAnimator,
    second: Single,
    again: bool,
    c: &mut RotationAnimator,
    near: bool,
    now: i64,
    s: EaseStep,
)
    requires
        call_ensures(RotationAnimator::animate_to, (a, first, realized), install),
        *old(b) == *final(a),
        call_ensures(RotationAnimator::animate_to, (b, second, realized), again),
        *old(c) == *final(b),
        i64::MIN <= now - old(c).last_time <= i64::MAX,
        call_ensures(RotationAnimator::tick, (c, near, now), s),
    ensures
        install <==> realized && !old(a).installed,
        !again,
        near ==> s == EaseStep::Settle(second),
        !near ==> (s matches EaseStep::Toward(to, interval) && to == second && (install
            ==> interval is FirstFrame)),
        near ==> final(c).target is None && !final(c).installed,
        !near ==> final(c).target == Some(second) && final(c).last_time == now
            && final(c).installed == (realized || old(a).installed),
{
}

/// A step of the ease covers the time since the one before it, and an ease that was
/// cancelled stops at its next tick.
pub proof fn law_a_step_covers_the_time_since_the_last(
    a: &mut RotationAnimator,
    then: i64,
    s: EaseStep,
    b: &mut RotationAnimator,
    now: i64,
    t: EaseStep,
    c: &mut RotationAnimator,
    d: &mut RotationAnimator,
    u: EaseStep,
)
    requires
        old(a).target is Some,
        then != 0,
        i64::MIN <= then - old(a).last_time <= i64::MAX,
        call_ensures(RotationAnimator::tick, (a, false, then), s),
        *old(b) == *final(a),
        i64::MIN <= now - then <= i64::MAX,
        call_ensures(RotationAnimator::tick, (b, false, now), t),
        *old(c) == *final(b),
        call_ensures(RotationAnimator::cancel, (c,), ()),
        *old(d) == *final(c),
        i64::MIN <= now - old(d).last_time <= i64::MAX,
        call_ensures(RotationAnimator::tick, (d, false, now), u),
    ensures
        t == EaseStep::Toward(old(a).target->0, EaseInterval::Micros((now - then) as i64)),
        u is Stop,
        !final(d).installed,
        final(d).target is None,
{
}

/// An ease that is aimed anew while it glides goes on by the same clock, and so do one
/// that cannot start yet and one that is cancelled.
pub proof fn law_a_glide_goes_on_by_its_clock(
    a: &mut RotationAnimator,
    target: Single,
    realized: bool,
    install: bool,
    b: &mut RotationAnimator,
    c: &mut RotationAnimator,
    now: i64,
    s: EaseStep,
)
    requires
        call_ensures(RotationAnimator::animate_to, (a, target, realized), install),
        call_ensures(RotationAnimator::cancel, (b,), ()),
        i64::MIN <= now - old(c).last_time <= i64::MAX,
        old(c).target is Some,
        call_ensures(RotationAnimator::tick, (c, true, now), s),
    ensures
        old(a).installed || !realized ==> final(a).last_time == old(a).last_time
            && final(a).installed == old(a).installed,
        final(b).last_time == old(b).last_time && final(b).installed == old(b).installed,
        final(c).last_time == old(c).last_time,
{
}

} // verus!

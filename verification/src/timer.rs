//! Countdowns that script every phase of the fight.
//!
//! A [`Countdown`] holds, as plain values, the state of a bevy
//! `Timer`: its duration, how much of it has elapsed, whether it repeats,
//! whether it is finished and how often it finished during the last tick.
//! Advancing it is done by bevy's own `Timer::tick`.

use vstd::prelude::*;

verus! {

/// Nanoseconds in one second.
pub const NANOS_PER_SEC: u64 = 1_000_000_000;

/// The state of a bevy `Timer`, in nanoseconds.
#[derive(Clone, Copy, PartialEq, Eq, Structural, Debug)]
pub struct Countdown {
    pub duration_ns: u64,
    pub elapsed_ns: u64,
    pub repeating: bool,
    pub finished: bool,
    pub times_finished: u32,
}

impl Countdown {
    /// What every countdown reachable through this module satisfies.
    pub open spec fn wf(&self) -> bool {
        &&& self.elapsed_ns <= self.duration_ns
        &&& self.times_finished > 0 ==> self.finished
        &&& (!self.repeating && self.finished) ==> self.elapsed_ns == self.duration_ns
    }

    /// `true` when the last tick made the countdown finish at least once.
    pub open spec fn spec_just_finished(&self) -> bool {
        self.times_finished > 0
    }

    /// A fresh countdown, as `Timer::new(duration, TimerMode::Once)` makes it.
    pub fn new_once(duration_ns: u64) -> (c: Countdown)
        ensures
            c == fresh(duration_ns, false),
            c.wf(),
    {
        Countdown { duration_ns, elapsed_ns: 0, repeating: false, finished: false, times_finished: 0 }
    }

    /// A fresh countdown, as `Timer::new(duration, TimerMode::Repeating)` makes it.
    pub fn new_repeating(duration_ns: u64) -> (c: Countdown)
        ensures
            c == fresh(duration_ns, true),
            c.wf(),
    {
        Countdown { duration_ns, elapsed_ns: 0, repeating: true, finished: false, times_finished: 0 }
    }

    /// Whether the countdown is in its finished state.
    pub fn finished(&self) -> (b: bool)
        ensures
            b == self.finished,
    {
        self.finished
    }

    /// Whether the last tick made the countdown finish.
    pub fn just_finished(&self) -> (b: bool)
        ensures
            b == self.spec_just_finished(),
    {
        self.times_finished > 0
    }

    /// Time left before the countdown finishes.
    pub fn remaining_ns(&self) -> (r: u64)
        requires
            self.wf(),
        ensures
            r == self.duration_ns - self.elapsed_ns,
    {
        self.duration_ns - self.elapsed_ns
    }

    /// Back to no time elapsed and not finished, as `Timer::reset` does.
    pub fn reset(&mut self)
        requires
            old(self).wf(),
        ensures
            *final(self) == fresh(old(self).duration_ns, old(self).repeating),
            final(self).wf(),
    {
        self.elapsed_ns = 0;
        self.finished = false;
        self.times_finished = 0;
    }

    /// Advances the countdown by `delta_ns`, as `Timer::tick` does.
    pub fn tick(&mut self, delta_ns: u64)
        requires
            old(self).wf(),
        ensures
            *final(self) == ticked(*old(self), delta_ns as int),
            final(self).wf(),
    {
        if !self.repeating && self.finished {
            self.times_finished = 0;
            return;
        }
        if self.repeating {
            let (elapsed, finished, times) = bevy_tick_repeating(self.duration_ns, self.elapsed_ns, delta_ns);
            proof {
                if finished && self.duration_ns > 0 {
                    assert(elapsed < self.duration_ns);
                }
            }
            self.elapsed_ns = elapsed as u64;
            self.finished = finished;
            self.times_finished = times;
        } else {
            let (elapsed, finished, times) = bevy_tick_once(self.duration_ns, self.elapsed_ns, delta_ns);
            self.elapsed_ns = elapsed as u64;
            self.finished = finished;
            self.times_finished = times;
        }
    }
}

/// The countdown that `Timer::new` makes: nothing elapsed, not finished.
pub open spec fn fresh(duration_ns: u64, repeating: bool) -> Countdown {
    Countdown { duration_ns, elapsed_ns: 0, repeating, finished: false, times_finished: 0 }
}

/// The state after one `Timer::tick` by `delta` nanoseconds.
///
/// A finished one-shot countdown stays as it is. Otherwise the elapsed time
/// grows by `delta`; reaching the duration finishes it. A one-shot countdown
/// then holds at its duration; a repeating one keeps the remainder and counts
/// how many whole durations went by (a zero duration counts `u32::MAX`).
pub open spec fn ticked(c: Countdown, delta: int) -> Countdown {
    if !c.repeating && c.finished {
        Countdown { times_finished: 0, ..c }
    } else {
        let s = c.elapsed_ns + delta;
        if s < c.duration_ns {
            Countdown { elapsed_ns: s as u64, finished: false, times_finished: 0, ..c }
        } else if !c.repeating {
            Countdown { elapsed_ns: c.duration_ns, finished: true, times_finished: 1, ..c }
        } else if c.duration_ns == 0 {
            Countdown { elapsed_ns: 0, finished: true, times_finished: u32::MAX, ..c }
        } else {
            Countdown {
                elapsed_ns: (s % (c.duration_ns as int)) as u64,
                finished: true,
                times_finished: (s / (c.duration_ns as int)) as u32,
                ..c
            }
        }
    }
}

/// bevy's `Timer::tick` on a fresh one-shot timer.
///
/// A `Timer::new(duration, TimerMode::Once)` whose elapsed time was set with
/// `set_elapsed` and then ticked by `delta` adds `delta` to the elapsed time
/// (its stopwatch adds with `saturating_add`, which two `u64` nanosecond counts
/// cannot saturate). If that reaches the duration, the timer is finished,
/// counts one finish, and its elapsed time is set to the duration; otherwise
/// it is not finished and counts none. Returned: elapsed nanoseconds, the
/// finished flag and `times_finished_this_tick`.
#[verifier::external_body]
fn bevy_tick_once(duration_ns: u64, elapsed_ns: u64, delta_ns: u64) -> (r: (u128, bool, u32))
    ensures
        r.1 == (elapsed_ns + delta_ns >= duration_ns),
        r.0 == (if r.1 { duration_ns as int } else { elapsed_ns + delta_ns }),
        r.2 == (if r.1 { 1u32 } else { 0u32 }),
{
    let mut timer = bevy::time::Timer::new(std::time::Duration::from_nanos(duration_ns), bevy::time::TimerMode::Once);
    timer.set_elapsed(std::time::Duration::from_nanos(elapsed_ns));
    timer.tick(std::time::Duration::from_nanos(delta_ns));
    (timer.elapsed().as_nanos(), timer.finished(), timer.times_finished_this_tick())
}

/// bevy's `Timer::tick` on a fresh repeating timer.
///
/// A `Timer::new(duration, TimerMode::Repeating)` whose elapsed time was set
/// with `set_elapsed` and then ticked by `delta` adds `delta` to the elapsed
/// time. If that reaches the duration, the timer is finished; its
/// `times_finished_this_tick` is the elapsed nanoseconds divided by the
/// duration's, cast to `u32` (`u32::MAX` for a zero duration), and the elapsed
/// time becomes the remainder (zero for a zero duration). Otherwise it is not
/// finished, counts none and keeps the sum. Returned: elapsed nanoseconds,
/// the finished flag and `times_finished_this_tick`.
#[verifier::external_body]
fn bevy_tick_repeating(duration_ns: u64, elapsed_ns: u64, delta_ns: u64) -> (r: (u128, bool, u32))
    ensures
        r.1 == (elapsed_ns + delta_ns >= duration_ns),
        !r.1 ==> r.0 == elapsed_ns + delta_ns && r.2 == 0,
        r.1 && duration_ns == 0 ==> r.0 == 0 && r.2 == u32::MAX,
        r.1 && duration_ns > 0 ==> r.0 == (elapsed_ns + delta_ns) % (duration_ns as int)
            && r.2 == ((elapsed_ns + delta_ns) / (duration_ns as int)) as u32,
{
    let mut timer = bevy::time::Timer::new(std::time::Duration::from_nanos(duration_ns), bevy::time::TimerMode::Repeating);
    timer.set_elapsed(std::time::Duration::from_nanos(elapsed_ns));
    timer.tick(std::time::Duration::from_nanos(delta_ns));
    (timer.elapsed().as_nanos(), timer.finished(), timer.times_finished_this_tick())
}

/// A finished one-shot countdown stays finished, with its time used up,
/// however long it keeps being ticked: it finishes once until reset.
pub proof fn lemma_one_shot_stays_finished(c: Countdown, delta: nat)
    requires
        c.wf(),
        !c.repeating,
        c.finished,
    ensures
        ticked(c, delta as int).finished,
        !ticked(c, delta as int).spec_just_finished(),
        ticked(c, delta as int).elapsed_ns == c.duration_ns,
{
}

/// A one-shot countdown reports finishing on exactly the tick that makes it
/// finished.
pub proof fn lemma_one_shot_finishes_on_one_tick(c: Countdown, delta: nat)
    requires
        c.wf(),
        !c.repeating,
    ensures
        ticked(c, delta as int).spec_just_finished() <==> (!c.finished && ticked(c, delta as int).finished),
{
}

/// Ticking a one-shot countdown by `a` and then by `b` leaves it as ticking
/// it by `a + b` once would, as far as time and finishing go.
pub proof fn lemma_one_shot_ticks_add_up(c: Countdown, a: nat, b: nat)
    requires
        c.wf(),
        !c.repeating,
    ensures
        ticked(ticked(c, a as int), b as int).elapsed_ns == ticked(c, (a + b) as int).elapsed_ns,
        ticked(ticked(c, a as int), b as int).finished == ticked(c, (a + b) as int).finished,
{
}

/// Ticking a repeating countdown by `a` and then by `b` leaves the same time
/// elapsed in the current round as ticking it by `a + b` once.
pub proof fn lemma_repeating_ticks_add_up(c: Countdown, a: nat, b: nat)
    requires
        c.wf(),
        c.repeating,
        c.duration_ns > 0,
    ensures
        ticked(ticked(c, a as int), b as int).elapsed_ns == ticked(c, (a + b) as int).elapsed_ns,
{
    let d = c.duration_ns as int;
    let e = c.elapsed_ns as int;
    let first = ticked(c, a as int);
    let e1 = first.elapsed_ns as int;
    if e + a >= d {
        assert(e1 == (e + a) % d);
        vstd::arithmetic::div_mod::lemma_mod_bound(e + a, d);
        if e1 + b < d {
            vstd::arithmetic::div_mod::lemma_add_mod_noop(e + a, b as int, d);
            vstd::arithmetic::div_mod::lemma_small_mod(b as nat, d as nat);
            vstd::arithmetic::div_mod::lemma_small_mod((e1 + b) as nat, d as nat);
            vstd::arithmetic::div_mod::lemma_mod_bound(e1, d);
            vstd::arithmetic::div_mod::lemma_mod_twice(e + a, d);
        } else {
            vstd::arithmetic::div_mod::lemma_add_mod_noop(e + a, b as int, d);
            vstd::arithmetic::div_mod::lemma_mod_twice(e + a, d);
            vstd::arithmetic::div_mod::lemma_add_mod_noop(e1, b as int, d);
        }
    }
}

/// `after` is `before` advanced by `delta` nanoseconds: same duration and
/// mode; finished exactly when the time elapsed so far plus `delta` reaches
/// the duration; short of that, `delta` more has elapsed; a one-shot
/// countdown that got there holds at its duration.
pub open spec fn counted_down_by(before: Countdown, after: Countdown, delta: int) -> bool {
    &&& after.duration_ns == before.duration_ns
    &&& after.repeating == before.repeating
    &&& after.finished <==> before.elapsed_ns + delta >= before.duration_ns
    &&& before.elapsed_ns + delta < before.duration_ns ==> after.elapsed_ns == before.elapsed_ns + delta
    &&& (!before.repeating && before.elapsed_ns + delta >= before.duration_ns) ==> after.elapsed_ns
        == before.duration_ns
}

/// A tick counts the countdown down by the time that went by: it finishes
/// exactly when the elapsed time reaches the duration, so a countdown ticked
/// by what it has left is finished.
pub proof fn lemma_tick_counts_down(c: Countdown, delta: nat)
    requires
        c.wf(),
    ensures
        counted_down_by(c, ticked(c, delta as int), delta as int),
{
}

} // verus!

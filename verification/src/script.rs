//! The timed mechanics of the phases: when greens, shockwaves, area attacks,
//! noodles, puddles, bees and portals appear, act and go away. Positions and
//! sizes are the application's; this module decides what happens when.

use vstd::prelude::*;
use rand::Rng;
use crate::timer::{Countdown, ticked, fresh};

verus! {

/// Ticks a countdown and tells whether that made it finish.
pub fn tick_just_finished(c: &mut Countdown, delta_ns: u64) -> (fired: bool)
    requires
        old(c).wf(),
    ensures
        *final(c) == ticked(*old(c), delta_ns as int),
        final(c).wf(),
        fired == final(c).spec_just_finished(),
{
    c.tick(delta_ns);
    c.just_finished()
}

/// Ticks a cooldown; once it is finished it restarts and the attack fires.
pub fn fire_when_ready(cooldown: &mut Countdown, delta_ns: u64) -> (fire: bool)
    requires
        old(cooldown).wf(),
    ensures
        final(cooldown).wf(),
        fire == ticked(*old(cooldown), delta_ns as int).finished,
        *final(cooldown) == (if fire {
            fresh(old(cooldown).duration_ns, old(cooldown).repeating)
        } else {
            ticked(*old(cooldown), delta_ns as int)
        }),
{
    cooldown.tick(delta_ns);
    if cooldown.finished() {
        cooldown.reset();
        true
    } else {
        false
    }
}

/// Ticks every countdown of a list and tells whether one of them just
/// finished.
pub fn tick_all_any_just_finished(timers: &mut Vec<Countdown>, delta_ns: u64) -> (any: bool)
    requires
        forall|i: int| 0 <= i < old(timers).len() ==> (#[trigger] old(timers)@[i]).wf(),
    ensures
        final(timers).len() == old(timers).len(),
        forall|i: int| 0 <= i < final(timers).len() ==> final(timers)@[i] == ticked(old(timers)@[i], delta_ns as int)
            && (#[trigger] final(timers)@[i]).wf(),
        any == exists|i: int| 0 <= i < final(timers).len() && (#[trigger] final(timers)@[i]).spec_just_finished(),
{
    let n = timers.len();
    let mut any = false;
    let mut k: usize = 0;
    while k < n
        invariant
            n == timers.len(),
            n == old(timers).len(),
            k <= n,
            forall|i: int| 0 <= i < n ==> (#[trigger] timers@[i]).wf(),
            forall|i: int| 0 <= i < k ==> timers@[i] == ticked(old(timers)@[i], delta_ns as int),
            forall|i: int| k <= i < n ==> timers@[i] == old(timers)@[i],
            any == exists|i: int| 0 <= i < k && (#[trigger] timers@[i]).spec_just_finished(),
        decreases n - k,
    {
        let ghost before = timers@;
        let mut c = timers[k];
        c.tick(delta_ns);
        timers.set(k, c);
        assert(timers@[k as int] == c);
        assert(forall|i: int| 0 <= i < k ==> timers@[i] == before[i]);
        let ghost had = any;
        if c.just_finished() {
            any = true;
        }
        assert(any == exists|i: int| 0 <= i < k + 1 && (#[trigger] timers@[i]).spec_just_finished()) by {
            if c.spec_just_finished() {
                assert(timers@[k as int].spec_just_finished());
            } else {
                if exists|i: int| 0 <= i < k + 1 && (#[trigger] timers@[i]).spec_just_finished() {
                    let i = choose|i: int| 0 <= i < k + 1 && (#[trigger] timers@[i]).spec_just_finished();
                    assert(i < k);
                    assert(before[i].spec_just_finished());
                }
                if had {
                    let i = choose|i: int| 0 <= i < k && (#[trigger] before[i]).spec_just_finished();
                    assert(timers@[i].spec_just_finished());
                }
            }
        }
        k = k + 1;
    }
    any
}

/// A green circle to soak: hidden until it shows, then counting down to its
/// detonation.
#[derive(Clone, Copy, PartialEq, Eq, Structural, Debug)]
pub struct StackGreen {
    pub visibility_start: Countdown,
    pub detonation: Countdown,
}

/// Both countdowns of a green are well formed.
pub open spec fn green_wf(g: StackGreen) -> bool {
    g.visibility_start.wf() && g.detonation.wf()
}

/// One frame of a green: before it shows, only its appearance counts down;
/// after, only its detonation. It is visible from the frame after it
/// appears until its detonation.
pub open spec fn spec_green_step(g: StackGreen, delta: int) -> (StackGreen, bool) {
    let next = if !g.visibility_start.finished {
        StackGreen { visibility_start: ticked(g.visibility_start, delta), ..g }
    } else {
        StackGreen { detonation: ticked(g.detonation, delta), ..g }
    };
    (next, g.visibility_start.finished && !next.detonation.finished)
}

impl StackGreen {
    /// Advances the green by a frame; returns whether it is visible.
    pub fn step(&mut self, delta_ns: u64) -> (visible: bool)
        requires
            green_wf(*old(self)),
        ensures
            green_wf(*final(self)),
            (*final(self), visible) == spec_green_step(*old(self), delta_ns as int),
    {
        let mut visible = true;
        if !self.visibility_start.finished() {
            self.visibility_start.tick(delta_ns);
            visible = false;
        } else {
            self.detonation.tick(delta_ns);
        }
        if self.detonation.finished() {
            visible = false;
        }
        visible
    }
}

/// A shockwave ring: hidden until it starts, then growing until it is gone.
#[derive(Clone, Copy, PartialEq, Eq, Structural, Debug)]
pub struct Wave {
    pub visibility_start: Countdown,
    pub growth: Countdown,
}

/// What a shockwave does in a frame.
#[derive(Clone, Copy, PartialEq, Eq, Structural, Debug)]
pub struct WaveFrame {
    pub visible: bool,
    pub play_shockwave: bool,
}

/// One frame of a shockwave: before it starts only its start counts down,
/// and the frame it starts its sound plays; after, it grows, visible until
/// its growth is over.
pub open spec fn spec_wave_step(w: Wave, delta: int) -> (Wave, WaveFrame) {
    if !w.visibility_start.finished {
        let vs = ticked(w.visibility_start, delta);
        (Wave { visibility_start: vs, ..w }, WaveFrame { visible: false, play_shockwave: vs.spec_just_finished() })
    } else {
        let gr = ticked(w.growth, delta);
        (Wave { growth: gr, ..w }, WaveFrame { visible: !gr.finished, play_shockwave: false })
    }
}

impl Wave {
    /// A shockwave that starts after `start_ns` and grows for `growth_ns`.
    pub fn new(start_ns: u64, growth_ns: u64) -> (w: Wave)
        ensures
            w.visibility_start == fresh(start_ns, false),
            w.growth == fresh(growth_ns, false),
    {
        Wave { visibility_start: Countdown::new_once(start_ns), growth: Countdown::new_once(growth_ns) }
    }

    /// Advances the shockwave by a frame.
    pub fn step(&mut self, delta_ns: u64) -> (frame: WaveFrame)
        requires
            old(self).visibility_start.wf(),
            old(self).growth.wf(),
        ensures
            final(self).visibility_start.wf(),
            final(self).growth.wf(),
            (*final(self), frame) == spec_wave_step(*old(self), delta_ns as int),
    {
        let mut visible = true;
        let mut play_shockwave = false;
        if !self.visibility_start.finished() {
            self.visibility_start.tick(delta_ns);
            visible = false;
            if self.visibility_start.just_finished() {
                play_shockwave = true;
            }
        } else {
            self.growth.tick(delta_ns);
        }
        if self.growth.finished() {
            visible = false;
        }
        WaveFrame { visible, play_shockwave }
    }
}

/// The countdowns of an area attack: an optional delay before it shows,
/// then its detonation.
#[derive(Clone, Copy, PartialEq, Eq, Structural, Debug)]
pub struct AoeTimers {
    pub visibility_start: Option<Countdown>,
    pub detonation: Countdown,
}

/// The countdowns of an area attack are well formed.
pub open spec fn aoe_wf(a: AoeTimers) -> bool {
    &&& a.detonation.wf()
    &&& a.visibility_start matches Some(v) ==> v.wf()
}

/// One frame of an area attack: its delay counts down; once it is over (or
/// if there is none) the attack is visible and its detonation counts down.
pub open spec fn spec_aoe_step(a: AoeTimers, delta: int) -> (AoeTimers, bool) {
    let vs = match a.visibility_start {
        Some(v) => Some(ticked(v, delta)),
        None => None,
    };
    let visible = match vs {
        Some(v) => v.finished,
        None => true,
    };
    let det = if visible { ticked(a.detonation, delta) } else { a.detonation };
    (AoeTimers { visibility_start: vs, detonation: det }, visible)
}

impl AoeTimers {
    /// Advances the area attack by a frame; returns whether it is visible.
    pub fn step(&mut self, delta_ns: u64) -> (visible: bool)
        requires
            aoe_wf(*old(self)),
        ensures
            aoe_wf(*final(self)),
            (*final(self), visible) == spec_aoe_step(*old(self), delta_ns as int),
    {
        let mut visible = false;
        match self.visibility_start {
            Some(v) => {
                let mut t = v;
                t.tick(delta_ns);
                self.visibility_start = Some(t);
                if t.finished() {
                    visible = true;
                }
            },
            None => {
                visible = true;
            },
        }
        if !visible {
            return false;
        }
        self.detonation.tick(delta_ns);
        true
    }

    /// Whether the attack hit this frame.
    pub fn detonated(&self) -> (b: bool)
        ensures
            b == self.detonation.spec_just_finished(),
    {
        self.detonation.just_finished()
    }
}

/// Ticks how long a lingering pool lasts; returns whether it is gone. A pool
/// without a duration stays.
pub fn soup_expired(duration: &mut Option<Countdown>, delta_ns: u64) -> (gone: bool)
    requires
        *old(duration) matches Some(d) ==> d.wf(),
    ensures
        match *old(duration) {
            Some(d) => *final(duration) == Some(ticked(d, delta_ns as int)) && gone == ticked(
                d,
                delta_ns as int,
            ).finished,
            None => *final(duration) == None::<Countdown> && !gone,
        },
        *final(duration) matches Some(d) ==> d.wf(),
{
    match duration {
        Some(d) => {
            let mut t = *d;
            t.tick(delta_ns);
            *duration = Some(t);
            t.finished()
        },
        None => false,
    }
}

/// A noodle: hidden until it emerges, then slamming on a cooldown.
#[derive(Clone, Copy, PartialEq, Eq, Structural, Debug)]
pub struct NoodleTimers {
    pub visibility_start: Countdown,
    pub slam_cooldown: Countdown,
}

/// What a noodle does in a frame.
#[derive(Clone, Copy, PartialEq, Eq, Structural, Debug)]
pub struct NoodleFrame {
    pub shown: bool,
    pub slam: bool,
}

/// One frame of a noodle: before it emerges only that counts down and it
/// does nothing else; after, it is shown and slams whenever its cooldown is
/// over, which then restarts.
pub open spec fn spec_noodle_step(n: NoodleTimers, delta: int) -> (NoodleTimers, NoodleFrame) {
    if !n.visibility_start.finished {
        (
            NoodleTimers { visibility_start: ticked(n.visibility_start, delta), ..n },
            NoodleFrame { shown: false, slam: false },
        )
    } else {
        let cd = ticked(n.slam_cooldown, delta);
        if cd.finished {
            (
                NoodleTimers { slam_cooldown: fresh(cd.duration_ns, cd.repeating), ..n },
                NoodleFrame { shown: true, slam: true },
            )
        } else {
            (NoodleTimers { slam_cooldown: cd, ..n }, NoodleFrame { shown: true, slam: false })
        }
    }
}

impl NoodleTimers {
    /// Advances the noodle by a frame.
    pub fn step(&mut self, delta_ns: u64) -> (frame: NoodleFrame)
        requires
            old(self).visibility_start.wf(),
            old(self).slam_cooldown.wf(),
        ensures
            final(self).visibility_start.wf(),
            final(self).slam_cooldown.wf(),
            (*final(self), frame) == spec_noodle_step(*old(self), delta_ns as int),
    {
        if !self.visibility_start.finished() {
            self.visibility_start.tick(delta_ns);
            return NoodleFrame { shown: false, slam: false };
        }
        let slam = fire_when_ready(&mut self.slam_cooldown, delta_ns);
        NoodleFrame { shown: true, slam }
    }
}

/// The red tint of a hit entity: tinted until the tint is over, restored
/// and done once the untint is over.
#[derive(Clone, Copy, PartialEq, Eq, Structural, Debug)]
pub struct TintTimers {
    pub tint: Countdown,
    pub untint: Countdown,
}

/// How a hit entity looks in a frame.
#[derive(Clone, Copy, PartialEq, Eq, Structural, Debug)]
pub struct TintFrame {
    pub tinted: bool,
    pub done: bool,
}

impl TintTimers {
    /// Advances the tint by a frame.
    pub fn step(&mut self, delta_ns: u64) -> (frame: TintFrame)
        requires
            old(self).tint.wf(),
            old(self).untint.wf(),
        ensures
            final(self).tint.wf(),
            final(self).untint.wf(),
            final(self).tint == ticked(old(self).tint, delta_ns as int),
            final(self).untint == ticked(old(self).untint, delta_ns as int),
            frame.done == final(self).untint.finished,
            frame.tinted == (!final(self).tint.finished && !final(self).untint.finished),
    {
        self.tint.tick(delta_ns);
        self.untint.tick(delta_ns);
        let mut tinted = !self.tint.finished();
        let mut done = false;
        if self.untint.finished() {
            tinted = false;
            done = true;
        }
        TintFrame { tinted, done }
    }
}

/// What a puddle does in a frame.
#[derive(Clone, Copy, PartialEq, Eq, Structural, Debug)]
pub struct PuddleFrame {
    /// The puddle moves with its target.
    pub follows_target: bool,
    /// The puddle dropped this frame and starts to hurt.
    pub dropped: bool,
    /// The puddle is about to drop and shows it.
    pub warning: bool,
}

/// One frame of a red puddle that follows its target for the first two
/// thirds of its drop time, then warns, then drops. A dropped puddle does
/// nothing more. The share of the drop time is compared exactly.
pub open spec fn spec_puddle_step(drop: Countdown, delta: int) -> (Countdown, PuddleFrame) {
    if drop.finished {
        (drop, PuddleFrame { follows_target: false, dropped: false, warning: false })
    } else {
        let d = ticked(drop, delta);
        let early = d.elapsed_ns * 6 < d.duration_ns * 4;
        let late = d.elapsed_ns * 6 > d.duration_ns * 4;
        (
            d,
            PuddleFrame {
                follows_target: early,
                dropped: d.spec_just_finished(),
                warning: !d.spec_just_finished() && late,
            },
        )
    }
}

/// Advances a red puddle's drop by a frame.
pub fn puddle_step(drop: &mut Countdown, delta_ns: u64) -> (frame: PuddleFrame)
    requires
        old(drop).wf(),
    ensures
        final(drop).wf(),
        (*final(drop), frame) == spec_puddle_step(*old(drop), delta_ns as int),
{
    if drop.finished() {
        return PuddleFrame { follows_target: false, dropped: false, warning: false };
    }
    drop.tick(delta_ns);
    let e: u128 = drop.elapsed_ns as u128 * 6;
    let d: u128 = drop.duration_ns as u128 * 4;
    let just = drop.just_finished();
    PuddleFrame { follows_target: e < d, dropped: just, warning: !just && e > d }
}

/// A heading for a swarm of bees, in eighths of a turn.
///
/// rand's `Rng::gen_range(0..8)` on the thread-local generator: a value of
/// the range, which is not empty, so the call does not panic. Which value
/// comes is chance.
#[verifier::external_body]
fn random_bee_heading() -> (h: u32)
    ensures
        h < 8,
{
    rand::thread_rng().gen_range(0..8u32)
}

/// A swarm of bees that the orb lets out.
#[derive(Clone, Copy, PartialEq, Eq, Structural, Debug)]
pub struct BeeRelease {
    /// Direction in eighths of a turn.
    pub heading: u32,
    /// Whether the bees fly off; they hover once the orb has reached a target.
    pub moving: bool,
}

/// Ticks the orb's bee cooldown, twice as fast once the orb has reached a
/// target; when it is over it restarts and a swarm leaves in a random
/// direction, moving only while no target has been reached.
pub fn release_bees(cooldown: &mut Countdown, orb_target: i32, delta_ns: u64) -> (bees: Option<BeeRelease>)
    requires
        old(cooldown).wf(),
    ensures
        final(cooldown).wf(),
        ({
            let once = ticked(*old(cooldown), delta_ns as int);
            let after = if orb_target > 0 { ticked(once, delta_ns as int) } else { once };
            &&& bees is Some == after.finished
            &&& *final(cooldown) == (if after.finished {
                fresh(after.duration_ns, after.repeating)
            } else {
                after
            })
            &&& bees matches Some(b) ==> b.heading < 8 && b.moving == (orb_target == 0)
        }),
{
    cooldown.tick(delta_ns);
    if orb_target > 0 {
        cooldown.tick(delta_ns);
    }
    if !cooldown.finished() {
        return None;
    }
    cooldown.reset();
    let heading = random_bee_heading();
    Some(BeeRelease { heading, moving: orb_target == 0 })
}

/// What expires of the portals in a frame.
pub struct PortalExpiry {
    /// Per entry: it expired; its owner's portal cooldown restarts.
    pub entries_expired: Vec<bool>,
    /// Per exit: it expired.
    pub exits_expired: Vec<bool>,
    /// Some exit expired, which closes every entry as well.
    pub close_all_entries: bool,
}

/// Advances the portals by a frame: an entry without any exit expires when
/// its countdown is over; an exit expires when its own is, taking all
/// entries with it. Entries do not count down while an exit stands.
pub fn expire_portals(entries: &mut Vec<Countdown>, exits: &mut Vec<Countdown>, delta_ns: u64) -> (r: PortalExpiry)
    requires
        forall|i: int| 0 <= i < old(entries).len() ==> (#[trigger] old(entries)@[i]).wf(),
        forall|i: int| 0 <= i < old(exits).len() ==> (#[trigger] old(exits)@[i]).wf(),
    ensures
        final(entries).len() == old(entries).len(),
        final(exits).len() == old(exits).len(),
        r.entries_expired.len() == old(entries).len(),
        r.exits_expired.len() == old(exits).len(),
        forall|i: int| 0 <= i < final(entries).len() ==> (#[trigger] final(entries)@[i]).wf(),
        forall|i: int| 0 <= i < final(exits).len() ==> (#[trigger] final(exits)@[i]).wf(),
        forall|i: int| 0 <= i < old(entries).len() ==> #[trigger] final(entries)@[i] == (if old(exits).len() == 0 {
            ticked(old(entries)@[i], delta_ns as int)
        } else {
            old(entries)@[i]
        }),
        forall|i: int| 0 <= i < old(entries).len() ==> #[trigger] r.entries_expired@[i] == (old(exits).len() == 0
            && final(entries)@[i].finished),
        forall|i: int| 0 <= i < old(exits).len() ==> #[trigger] final(exits)@[i] == ticked(old(exits)@[i], delta_ns as int),
        forall|i: int| 0 <= i < old(exits).len() ==> #[trigger] r.exits_expired@[i] == final(exits)@[i].finished,
        r.close_all_entries == exists|i: int| 0 <= i < old(exits).len() && #[trigger] r.exits_expired@[i],
{
    let no_exits = exits.len() == 0;
    let mut entries_expired: Vec<bool> = Vec::new();
    let mut k: usize = 0;
    while k < entries.len()
        invariant
            k <= entries.len(),
            entries.len() == old(entries).len(),
            no_exits == (exits.len() == 0),
            exits@ == old(exits)@,
            entries_expired.len() == k,
            forall|i: int| 0 <= i < entries.len() ==> (#[trigger] entries@[i]).wf(),
            forall|i: int| 0 <= i < k ==> #[trigger] entries@[i] == (if no_exits {
                ticked(old(entries)@[i], delta_ns as int)
            } else {
                old(entries)@[i]
            }),
            forall|i: int| k <= i < entries.len() ==> #[trigger] entries@[i] == old(entries)@[i],
            forall|i: int| 0 <= i < k ==> #[trigger] entries_expired@[i] == (no_exits && entries@[i].finished),
        decreases entries.len() - k,
    {
        if no_exits {
            let mut c = entries[k];
            c.tick(delta_ns);
            entries.set(k, c);
            entries_expired.push(c.finished());
        } else {
            entries_expired.push(false);
        }
        k = k + 1;
    }
    let mut exits_expired: Vec<bool> = Vec::new();
    let mut close_all_entries = false;
    let mut j: usize = 0;
    while j < exits.len()
        invariant
            j <= exits.len(),
            exits.len() == old(exits).len(),
            exits_expired.len() == j,
            forall|i: int| 0 <= i < exits.len() ==> (#[trigger] exits@[i]).wf(),
            forall|i: int| 0 <= i < j ==> #[trigger] exits@[i] == ticked(old(exits)@[i], delta_ns as int),
            forall|i: int| 0 <= i < j ==> #[trigger] exits_expired@[i] == exits@[i].finished,
            forall|i: int| j <= i < exits.len() ==> #[trigger] exits@[i] == old(exits)@[i],
            entries.len() == old(entries).len(),
            entries_expired.len() == old(entries).len(),
            forall|i: int| 0 <= i < entries.len() ==> (#[trigger] entries@[i]).wf(),
            forall|i: int| 0 <= i < entries.len() ==> #[trigger] entries@[i] == (if old(exits).len() == 0 {
                ticked(old(entries)@[i], delta_ns as int)
            } else {
                old(entries)@[i]
            }),
            forall|i: int| 0 <= i < entries.len() ==> #[trigger] entries_expired@[i] == (old(exits).len() == 0 && entries@[i].finished),
            close_all_entries == exists|i: int| 0 <= i < j && #[trigger] exits_expired@[i],
        decreases exits.len() - j,
    {
        let mut c = exits[j];
        c.tick(delta_ns);
        exits.set(j, c);
        let ghost before = exits_expired@;
        exits_expired.push(c.finished());
        if c.finished() {
            close_all_entries = true;
        }
        assert(exits_expired@[j as int] == c.finished);
        assert(forall|i: int| 0 <= i < j ==> exits_expired@[i] == before[i]);
        assert(close_all_entries == exists|i: int| 0 <= i < j + 1 && #[trigger] exits_expired@[i]) by {
            if !c.finished && exists|i: int| 0 <= i < j + 1 && #[trigger] exits_expired@[i] {
                let i = choose|i: int| 0 <= i < j + 1 && #[trigger] exits_expired@[i];
                assert(i < j);
                assert(before[i]);
            }
            if close_all_entries && !c.finished {
                let i = choose|i: int| 0 <= i < j && #[trigger] before[i];
                assert(exits_expired@[i]);
            }
        }
        j = j + 1;
    }
    assert(j == old(exits).len());
    let r = PortalExpiry { entries_expired, exits_expired, close_all_entries };
    assert(r.close_all_entries == exists|i: int| 0 <= i < old(exits).len() && #[trigger] r.exits_expired@[i]) by {
        if r.close_all_entries {
            let i = choose|i: int| 0 <= i < j && #[trigger] exits_expired@[i];
            assert(r.exits_expired@[i]);
        }
    }
    r
}

/// Once a one-shot green has detonated it stays hidden and detonated,
/// however the frames go on.
pub proof fn lemma_detonated_green_stays_hidden(g: StackGreen, delta: nat)
    requires
        green_wf(g),
        !g.detonation.repeating,
        g.detonation.finished,
    ensures
        !spec_green_step(g, delta as int).1,
        spec_green_step(g, delta as int).0.detonation.finished,
        !spec_green_step(g, delta as int).0.detonation.repeating,
{
}

/// A shockwave's sound plays at most once: once it has started, no later
/// frame plays it again.
pub proof fn lemma_shockwave_sound_once(w: Wave, delta: nat)
    requires
        w.visibility_start.finished,
    ensures
        !spec_wave_step(w, delta as int).1.play_shockwave,
        spec_wave_step(w, delta as int).0.visibility_start.finished,
{
}

/// An area attack's detonation does not count down while it is hidden.
pub proof fn lemma_hidden_aoe_does_not_detonate(a: AoeTimers, delta: nat)
    requires
        !spec_aoe_step(a, delta as int).1,
    ensures
        spec_aoe_step(a, delta as int).0.detonation == a.detonation,
{
}

} // verus!

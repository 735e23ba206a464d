//! The cooldowns and protections of a player, human or computer.

use vstd::prelude::*;
use crate::timer::{Countdown, ticked, fresh, NANOS_PER_SEC, counted_down_by, lemma_tick_counts_down};

verus! {

/// How long a shot takes to come back.
pub const SHOOT_COOLDOWN_NS: u64 = 200_000_000;
/// How long dodge takes to come back.
pub const DODGE_COOLDOWN_NS: u64 = 10 * NANOS_PER_SEC;
/// How long blink takes to come back.
pub const BLINK_COOLDOWN_NS: u64 = 16 * NANOS_PER_SEC;
/// How long a portal pair takes to come back.
pub const PORTAL_COOLDOWN_NS: u64 = 60 * NANOS_PER_SEC;
/// How long jump takes to come back.
pub const JUMP_COOLDOWN_NS: u64 = 600_000_000;
/// How long pull takes to come back.
pub const PULL_COOLDOWN_NS: u64 = 20 * NANOS_PER_SEC;
/// How long a dodge makes the player untouchable.
pub const DODGE_DURATION_NS: u64 = 750_000_000;
/// How long a blink makes the player untouchable.
pub const BLINK_INVULN_NS: u64 = 100_000_000;
/// How long a jump lasts.
pub const JUMP_DURATION_NS: u64 = 500_000_000;
/// How far ahead skills are wound so that they start out ready.
pub const READY_WIND_NS: u64 = 1000 * NANOS_PER_SEC;

/// The timers a player carries.
#[derive(Clone, Copy, PartialEq, Eq, Structural, Debug)]
pub struct PlayerTimers {
    pub shoot_cooldown: Countdown,
    pub dodge_cooldown: Countdown,
    pub blink_cooldown: Countdown,
    pub portal_cooldown: Countdown,
    pub pull_cooldown: Countdown,
    pub jump_cooldown: Countdown,
    pub invuln: Countdown,
    pub jump: Countdown,
}

/// Every timer of a player is well formed.
pub open spec fn player_timers_wf(p: PlayerTimers) -> bool {
    &&& p.shoot_cooldown.wf()
    &&& p.dodge_cooldown.wf()
    &&& p.blink_cooldown.wf()
    &&& p.portal_cooldown.wf()
    &&& p.pull_cooldown.wf()
    &&& p.jump_cooldown.wf()
    &&& p.invuln.wf()
    &&& p.jump.wf()
}

/// The skills wound ahead when a phase starts: dodge, blink, portal and pull
/// are ready, nobody is untouchable or in the air. Shooting and the jump
/// cooldown are left as they are.
pub open spec fn spec_wound_ready(p: PlayerTimers) -> PlayerTimers {
    PlayerTimers {
        dodge_cooldown: ticked(p.dodge_cooldown, READY_WIND_NS as int),
        blink_cooldown: ticked(p.blink_cooldown, READY_WIND_NS as int),
        portal_cooldown: ticked(p.portal_cooldown, READY_WIND_NS as int),
        pull_cooldown: ticked(p.pull_cooldown, READY_WIND_NS as int),
        invuln: ticked(p.invuln, READY_WIND_NS as int),
        jump: ticked(p.jump, READY_WIND_NS as int),
        ..p
    }
}

/// Every timer of a player ticked by `delta`.
pub open spec fn spec_ticked_all(p: PlayerTimers, delta: int) -> PlayerTimers {
    PlayerTimers {
        shoot_cooldown: ticked(p.shoot_cooldown, delta),
        dodge_cooldown: ticked(p.dodge_cooldown, delta),
        blink_cooldown: ticked(p.blink_cooldown, delta),
        portal_cooldown: ticked(p.portal_cooldown, delta),
        pull_cooldown: ticked(p.pull_cooldown, delta),
        jump_cooldown: ticked(p.jump_cooldown, delta),
        invuln: ticked(p.invuln, delta),
        jump: ticked(p.jump, delta),
    }
}

impl PlayerTimers {
    /// The timers of a new player: every skill ready but shooting and
    /// jumping, which first cool down; not untouchable, not in the air.
    pub fn new() -> (p: PlayerTimers)
        ensures
            player_timers_wf(p),
            p == spec_wound_ready(PlayerTimers {
                shoot_cooldown: fresh(SHOOT_COOLDOWN_NS, false),
                dodge_cooldown: fresh(DODGE_COOLDOWN_NS, false),
                blink_cooldown: fresh(BLINK_COOLDOWN_NS, false),
                portal_cooldown: fresh(PORTAL_COOLDOWN_NS, false),
                pull_cooldown: fresh(PULL_COOLDOWN_NS, false),
                jump_cooldown: fresh(JUMP_COOLDOWN_NS, false),
                invuln: fresh(DODGE_DURATION_NS, false),
                jump: fresh(DODGE_DURATION_NS, false),
            }),
            p.dodge_cooldown.finished && p.blink_cooldown.finished && p.portal_cooldown.finished
                && p.pull_cooldown.finished && p.invuln.finished && p.jump.finished,
            !p.shoot_cooldown.finished && !p.jump_cooldown.finished,
    {
        let mut p = PlayerTimers {
            shoot_cooldown: Countdown::new_once(SHOOT_COOLDOWN_NS),
            dodge_cooldown: Countdown::new_once(DODGE_COOLDOWN_NS),
            blink_cooldown: Countdown::new_once(BLINK_COOLDOWN_NS),
            portal_cooldown: Countdown::new_once(PORTAL_COOLDOWN_NS),
            pull_cooldown: Countdown::new_once(PULL_COOLDOWN_NS),
            jump_cooldown: Countdown::new_once(JUMP_COOLDOWN_NS),
            invuln: Countdown::new_once(DODGE_DURATION_NS),
            jump: Countdown::new_once(DODGE_DURATION_NS),
        };
        p.wind_ready();
        p
    }

    /// Winds dodge, blink, portal, pull, untouchability and the jump far
    /// ahead, as a new phase does.
    pub fn wind_ready(&mut self)
        requires
            player_timers_wf(*old(self)),
        ensures
            player_timers_wf(*final(self)),
            *final(self) == spec_wound_ready(*old(self)),
    {
        self.dodge_cooldown.tick(READY_WIND_NS);
        self.blink_cooldown.tick(READY_WIND_NS);
        self.portal_cooldown.tick(READY_WIND_NS);
        self.pull_cooldown.tick(READY_WIND_NS);
        self.invuln.tick(READY_WIND_NS);
        self.jump.tick(READY_WIND_NS);
    }

    /// Ticks every timer of the player by a frame.
    pub fn tick_all(&mut self, delta_ns: u64)
        requires
            player_timers_wf(*old(self)),
        ensures
            player_timers_wf(*final(self)),
            *final(self) == spec_ticked_all(*old(self), delta_ns as int),
    {
        self.shoot_cooldown.tick(delta_ns);
        self.dodge_cooldown.tick(delta_ns);
        self.pull_cooldown.tick(delta_ns);
        self.blink_cooldown.tick(delta_ns);
        self.portal_cooldown.tick(delta_ns);
        self.jump_cooldown.tick(delta_ns);
        self.invuln.tick(delta_ns);
        self.jump.tick(delta_ns);
    }

    /// A shockwave hurts only a player that is neither untouchable nor in
    /// the air.
    pub fn can_be_hit_by_wave(&self) -> (b: bool)
        ensures
            b == (self.invuln.finished && self.jump.finished),
    {
        self.invuln.finished() && self.jump.finished()
    }

    /// Makes the player untouchable for a while, as a dodge, a blink or a
    /// hit does.
    pub fn make_untouchable(&mut self, duration_ns: u64)
        requires
            player_timers_wf(*old(self)),
        ensures
            player_timers_wf(*final(self)),
            *final(self) == (PlayerTimers { invuln: fresh(duration_ns, false), ..*old(self) }),
    {
        self.invuln = Countdown::new_once(duration_ns);
    }

    /// Dodges: untouchable for the dodge, and dodge starts cooling down.
    pub fn start_dodge(&mut self)
        requires
            player_timers_wf(*old(self)),
        ensures
            player_timers_wf(*final(self)),
            *final(self) == (PlayerTimers {
                invuln: fresh(DODGE_DURATION_NS, false),
                dodge_cooldown: fresh(old(self).dodge_cooldown.duration_ns, old(self).dodge_cooldown.repeating),
                ..*old(self)
            }),
    {
        self.invuln = Countdown::new_once(DODGE_DURATION_NS);
        self.dodge_cooldown.reset();
    }

    /// Blinks: untouchable for an instant, and blink starts cooling down.
    pub fn start_blink(&mut self)
        requires
            player_timers_wf(*old(self)),
        ensures
            player_timers_wf(*final(self)),
            *final(self) == (PlayerTimers {
                invuln: fresh(BLINK_INVULN_NS, false),
                blink_cooldown: fresh(old(self).blink_cooldown.duration_ns, old(self).blink_cooldown.repeating),
                ..*old(self)
            }),
    {
        self.invuln = Countdown::new_once(BLINK_INVULN_NS);
        self.blink_cooldown.reset();
    }

    /// Jumps: in the air for the jump, and jump starts cooling down.
    pub fn start_jump(&mut self)
        requires
            player_timers_wf(*old(self)),
        ensures
            player_timers_wf(*final(self)),
            *final(self) == (PlayerTimers {
                jump: fresh(JUMP_DURATION_NS, false),
                jump_cooldown: fresh(old(self).jump_cooldown.duration_ns, old(self).jump_cooldown.repeating),
                ..*old(self)
            }),
    {
        self.jump = Countdown::new_once(JUMP_DURATION_NS);
        self.jump_cooldown.reset();
    }
}

/// Every frame counts every timer of the player down by the frame's time:
/// each cooldown and protection finishes exactly when its elapsed time plus
/// the frame reaches its duration, so a skill used `d` nanoseconds ago with
/// a cooldown of `d` is ready again.
pub proof fn lemma_tick_all_counts_every_timer_down(p: PlayerTimers, delta: nat)
    requires
        player_timers_wf(p),
    ensures
        ({
            let a = spec_ticked_all(p, delta as int);
            &&& counted_down_by(p.shoot_cooldown, a.shoot_cooldown, delta as int)
            &&& counted_down_by(p.dodge_cooldown, a.dodge_cooldown, delta as int)
            &&& counted_down_by(p.blink_cooldown, a.blink_cooldown, delta as int)
            &&& counted_down_by(p.portal_cooldown, a.portal_cooldown, delta as int)
            &&& counted_down_by(p.pull_cooldown, a.pull_cooldown, delta as int)
            &&& counted_down_by(p.jump_cooldown, a.jump_cooldown, delta as int)
            &&& counted_down_by(p.invuln, a.invuln, delta as int)
            &&& counted_down_by(p.jump, a.jump, delta as int)
        }),
{
    lemma_tick_counts_down(p.shoot_cooldown, delta);
    lemma_tick_counts_down(p.dodge_cooldown, delta);
    lemma_tick_counts_down(p.blink_cooldown, delta);
    lemma_tick_counts_down(p.portal_cooldown, delta);
    lemma_tick_counts_down(p.pull_cooldown, delta);
    lemma_tick_counts_down(p.jump_cooldown, delta);
    lemma_tick_counts_down(p.invuln, delta);
    lemma_tick_counts_down(p.jump, delta);
}

/// Winding a player ready at the start of a phase counts dodge, blink,
/// portal, pull, protection and air time down by a thousand seconds, so any
/// of them that is at most that long is finished; the shot and the jump
/// cooldown are left as they are.
pub proof fn lemma_wind_ready_readies_skills(p: PlayerTimers)
    requires
        player_timers_wf(p),
    ensures
        ({
            let w = spec_wound_ready(p);
            let d = READY_WIND_NS as int;
            &&& counted_down_by(p.dodge_cooldown, w.dodge_cooldown, d)
            &&& counted_down_by(p.blink_cooldown, w.blink_cooldown, d)
            &&& counted_down_by(p.portal_cooldown, w.portal_cooldown, d)
            &&& counted_down_by(p.pull_cooldown, w.pull_cooldown, d)
            &&& counted_down_by(p.invuln, w.invuln, d)
            &&& counted_down_by(p.jump, w.jump, d)
            &&& w.shoot_cooldown == p.shoot_cooldown
            &&& w.jump_cooldown == p.jump_cooldown
        }),
{
    lemma_tick_counts_down(p.dodge_cooldown, READY_WIND_NS as nat);
    lemma_tick_counts_down(p.blink_cooldown, READY_WIND_NS as nat);
    lemma_tick_counts_down(p.portal_cooldown, READY_WIND_NS as nat);
    lemma_tick_counts_down(p.pull_cooldown, READY_WIND_NS as nat);
    lemma_tick_counts_down(p.invuln, READY_WIND_NS as nat);
    lemma_tick_counts_down(p.jump, READY_WIND_NS as nat);
}

} // verus!

//! What the human player's keys ask for.

use vstd::prelude::*;
use crate::player::{PlayerTimers, player_timers_wf, JUMP_DURATION_NS, DODGE_DURATION_NS, BLINK_INVULN_NS};
use crate::timer::{Countdown, fresh};

verus! {

/// The direction the movement keys point to, each axis -1, 0 or 1: up and
/// right count positive, opposite keys cancel.
pub fn movement_direction(up: bool, down: bool, left: bool, right: bool) -> (dir: (i32, i32))
    ensures
        dir.0 == (if right { 1int } else { 0int }) - (if left { 1int } else { 0int }),
        dir.1 == (if up { 1int } else { 0int }) - (if down { 1int } else { 0int }),
{
    let mut x: i32 = 0;
    let mut y: i32 = 0;
    if up {
        y = y + 1;
    }
    if down {
        y = y - 1;
    }
    if left {
        x = x - 1;
    }
    if right {
        x = x + 1;
    }
    (x, y)
}

/// Which portal a cast opens, and the portal cooldown it sets, in
/// nanoseconds.
#[derive(Clone, Copy, PartialEq, Eq, Structural, Debug)]
pub enum PortalCast {
    /// An entry; the second cast is ready half a second later.
    Entry(u64),
    /// An exit; the next pair waits a minute.
    Exit(u64),
}

/// A ready portal cast opens an entry if there is none, else an exit if
/// there is none, else nothing.
pub fn cast_portal(entry_exists: bool, exit_exists: bool) -> (c: Option<PortalCast>)
    ensures
        c == (if !entry_exists {
            Some(PortalCast::Entry(500_000_000u64))
        } else if !exit_exists {
            Some(PortalCast::Exit(60_000_000_000u64))
        } else {
            None::<PortalCast>
        }),
{
    if !entry_exists {
        Some(PortalCast::Entry(500_000_000))
    } else if !exit_exists {
        Some(PortalCast::Exit(60_000_000_000))
    } else {
        None
    }
}

/// The skill keys held (or, for the portal, just pressed) this frame.
#[derive(Clone, Copy, PartialEq, Eq, Structural, Debug)]
pub struct SpellKeys {
    pub jump: bool,
    pub dodge: bool,
    pub blink: bool,
    pub pull: bool,
    pub portal: bool,
}

/// The skills that went off this frame; the application moves the player,
/// pulls the crabs and places the portal accordingly.
#[derive(Clone, Copy, PartialEq, Eq, Structural, Debug)]
pub struct SpellCasts {
    pub jumped: bool,
    pub dodged: bool,
    pub blinked: bool,
    pub pulled: bool,
    pub portal: Option<PortalCast>,
}

/// A skill goes off when its key is down and its cooldown is over.
pub open spec fn goes_off(key: bool, cooldown: Countdown) -> bool {
    key && cooldown.finished
}

/// The portal that a cast opens, as `cast_portal` decides it.
pub open spec fn spec_portal_cast(entry_exists: bool, exit_exists: bool) -> Option<PortalCast> {
    if !entry_exists {
        Some(PortalCast::Entry(500_000_000u64))
    } else if !exit_exists {
        Some(PortalCast::Exit(60_000_000_000u64))
    } else {
        None
    }
}

/// The portal cooldown a cast sets.
pub open spec fn portal_cast_cooldown(c: PortalCast) -> u64 {
    match c {
        PortalCast::Entry(ns) => ns,
        PortalCast::Exit(ns) => ns,
    }
}

/// What goes off when the player presses `keys`.
pub open spec fn spec_spell_casts(t: PlayerTimers, keys: SpellKeys, entry_exists: bool, exit_exists: bool) -> SpellCasts {
    SpellCasts {
        jumped: goes_off(keys.jump, t.jump_cooldown),
        dodged: goes_off(keys.dodge, t.dodge_cooldown),
        blinked: goes_off(keys.blink, t.blink_cooldown),
        pulled: goes_off(keys.pull, t.pull_cooldown),
        portal: if goes_off(keys.portal, t.portal_cooldown) {
            spec_portal_cast(entry_exists, exit_exists)
        } else {
            None
        },
    }
}

/// The timers after the casts: each skill that went off restarts its
/// cooldown; a jump puts the player in the air, a dodge and then a blink make
/// it untouchable (a blink's short protection replaces a dodge's in the same
/// frame); an opened portal sets the portal cooldown it comes with.
pub open spec fn spec_after_spells(t: PlayerTimers, keys: SpellKeys, entry_exists: bool, exit_exists: bool) -> PlayerTimers {
    let c = spec_spell_casts(t, keys, entry_exists, exit_exists);
    PlayerTimers {
        jump: if c.jumped { fresh(JUMP_DURATION_NS, false) } else { t.jump },
        jump_cooldown: if c.jumped {
            fresh(t.jump_cooldown.duration_ns, t.jump_cooldown.repeating)
        } else {
            t.jump_cooldown
        },
        invuln: if c.blinked {
            fresh(BLINK_INVULN_NS, false)
        } else if c.dodged {
            fresh(DODGE_DURATION_NS, false)
        } else {
            t.invuln
        },
        dodge_cooldown: if c.dodged {
            fresh(t.dodge_cooldown.duration_ns, t.dodge_cooldown.repeating)
        } else {
            t.dodge_cooldown
        },
        blink_cooldown: if c.blinked {
            fresh(t.blink_cooldown.duration_ns, t.blink_cooldown.repeating)
        } else {
            t.blink_cooldown
        },
        pull_cooldown: if c.pulled {
            fresh(t.pull_cooldown.duration_ns, t.pull_cooldown.repeating)
        } else {
            t.pull_cooldown
        },
        portal_cooldown: match c.portal {
            Some(p) => fresh(portal_cast_cooldown(p), false),
            None => t.portal_cooldown,
        },
        shoot_cooldown: t.shoot_cooldown,
    }
}

/// Fires the skills whose keys are down and whose cooldowns are over, in the
/// order jump, dodge, blink, pull, portal.
pub fn cast_spells(timers: &mut PlayerTimers, keys: SpellKeys, entry_exists: bool, exit_exists: bool) -> (c: SpellCasts)
    requires
        player_timers_wf(*old(timers)),
    ensures
        player_timers_wf(*final(timers)),
        c == spec_spell_casts(*old(timers), keys, entry_exists, exit_exists),
        *final(timers) == spec_after_spells(*old(timers), keys, entry_exists, exit_exists),
        c.jumped == (keys.jump && old(timers).jump_cooldown.finished),
        c.dodged == (keys.dodge && old(timers).dodge_cooldown.finished),
        c.blinked == (keys.blink && old(timers).blink_cooldown.finished),
        c.pulled == (keys.pull && old(timers).pull_cooldown.finished),
{
    let jumped = keys.jump && timers.jump_cooldown.finished();
    if jumped {
        timers.start_jump();
    }
    let dodged = keys.dodge && timers.dodge_cooldown.finished();
    if dodged {
        timers.start_dodge();
    }
    let blinked = keys.blink && timers.blink_cooldown.finished();
    if blinked {
        timers.start_blink();
    }
    let pulled = keys.pull && timers.pull_cooldown.finished();
    if pulled {
        timers.pull_cooldown.reset();
    }
    let mut portal: Option<PortalCast> = None;
    if keys.portal && timers.portal_cooldown.finished() {
        portal = cast_portal(entry_exists, exit_exists);
        match portal {
            Some(PortalCast::Entry(ns)) => {
                timers.portal_cooldown = Countdown::new_once(ns);
            },
            Some(PortalCast::Exit(ns)) => {
                timers.portal_cooldown = Countdown::new_once(ns);
            },
            None => {},
        }
    }
    SpellCasts { jumped, dodged, blinked, pulled, portal }
}

/// A skill that went off is not ready again right away: its cooldown has just
/// restarted, and the air time or protection it gives is running.
pub proof fn lemma_cast_spells_not_ready_again(t: PlayerTimers, keys: SpellKeys, entry_exists: bool, exit_exists: bool)
    requires
        player_timers_wf(t),
    ensures
        ({
            let c = spec_spell_casts(t, keys, entry_exists, exit_exists);
            let after = spec_after_spells(t, keys, entry_exists, exit_exists);
            &&& c.jumped ==> !after.jump_cooldown.finished && !after.jump.finished
            &&& c.dodged ==> !after.dodge_cooldown.finished && !after.invuln.finished
            &&& c.blinked ==> !after.blink_cooldown.finished && !after.invuln.finished
            &&& c.pulled ==> !after.pull_cooldown.finished
            &&& c.portal is Some ==> !after.portal_cooldown.finished
        }),
{
}

/// Keys that are not pressed, or skills still cooling down, change nothing.
pub proof fn lemma_no_cast_no_change(t: PlayerTimers, keys: SpellKeys, entry_exists: bool, exit_exists: bool)
    requires
        player_timers_wf(t),
        !goes_off(keys.jump, t.jump_cooldown),
        !goes_off(keys.dodge, t.dodge_cooldown),
        !goes_off(keys.blink, t.blink_cooldown),
        !goes_off(keys.pull, t.pull_cooldown),
        !goes_off(keys.portal, t.portal_cooldown),
    ensures
        spec_after_spells(t, keys, entry_exists, exit_exists) == t,
        spec_spell_casts(t, keys, entry_exists, exit_exists) == (SpellCasts {
            jumped: false,
            dodged: false,
            blinked: false,
            pulled: false,
            portal: None,
        }),
{
}

/// Each skill answers to its own key and its own cooldown alone: it goes
/// off exactly when its key is down and its cooldown is over, whatever the
/// other timers hold (a player already untouchable or in the air can still
/// blink, dodge or jump). A skill that goes off restarts its own cooldown
/// from zero; one that does not leaves it as it was. A blink protects for
/// 100 ms, a dodge alone for 750 ms, a jump lasts 500 ms, and without either
/// protection skill the protection timer is untouched. Shooting is not a
/// skill here and its cooldown never changes.
pub proof fn lemma_skill_answers_own_key_and_cooldown(t: PlayerTimers, keys: SpellKeys, entry_exists: bool, exit_exists: bool)
    requires
        player_timers_wf(t),
    ensures
        ({
            let c = spec_spell_casts(t, keys, entry_exists, exit_exists);
            let a = spec_after_spells(t, keys, entry_exists, exit_exists);
            &&& c.jumped == (keys.jump && t.jump_cooldown.finished)
            &&& c.dodged == (keys.dodge && t.dodge_cooldown.finished)
            &&& c.blinked == (keys.blink && t.blink_cooldown.finished)
            &&& c.pulled == (keys.pull && t.pull_cooldown.finished)
            &&& (c.portal is Some) == (keys.portal && t.portal_cooldown.finished && !(entry_exists && exit_exists))
            &&& (keys.portal && t.portal_cooldown.finished && !entry_exists) ==> c.portal == Some(PortalCast::Entry(500_000_000u64))
            &&& (keys.portal && t.portal_cooldown.finished && entry_exists && !exit_exists) ==> c.portal == Some(PortalCast::Exit(60_000_000_000u64))
            &&& c.jumped ==> a.jump_cooldown.elapsed_ns == 0 && !a.jump_cooldown.finished
                && a.jump_cooldown.duration_ns == t.jump_cooldown.duration_ns
                && a.jump.duration_ns == 500_000_000 && a.jump.elapsed_ns == 0 && !a.jump.finished
            &&& !c.jumped ==> a.jump_cooldown == t.jump_cooldown && a.jump == t.jump
            &&& c.dodged ==> a.dodge_cooldown.elapsed_ns == 0 && !a.dodge_cooldown.finished
                && a.dodge_cooldown.duration_ns == t.dodge_cooldown.duration_ns
            &&& !c.dodged ==> a.dodge_cooldown == t.dodge_cooldown
            &&& c.blinked ==> a.blink_cooldown.elapsed_ns == 0 && !a.blink_cooldown.finished
                && a.blink_cooldown.duration_ns == t.blink_cooldown.duration_ns
                && a.invuln.duration_ns == 100_000_000 && a.invuln.elapsed_ns == 0 && !a.invuln.finished
            &&& !c.blinked ==> a.blink_cooldown == t.blink_cooldown
            &&& (c.dodged && !c.blinked) ==> a.invuln.duration_ns == 750_000_000 && a.invuln.elapsed_ns == 0
                && !a.invuln.finished
            &&& (!c.dodged && !c.blinked) ==> a.invuln == t.invuln
            &&& c.pulled ==> a.pull_cooldown.elapsed_ns == 0 && !a.pull_cooldown.finished
                && a.pull_cooldown.duration_ns == t.pull_cooldown.duration_ns
            &&& !c.pulled ==> a.pull_cooldown == t.pull_cooldown
            &&& c.portal is None ==> a.portal_cooldown == t.portal_cooldown
            &&& a.shoot_cooldown == t.shoot_cooldown
        }),
{
}

} // verus!

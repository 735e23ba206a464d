use dragonfruitvoid::controls::{cast_portal, movement_direction, PortalCast};
use dragonfruitvoid::script::{
    expire_portals, fire_when_ready, puddle_step, release_bees, soup_expired,
    tick_all_any_just_finished, tick_just_finished, AoeTimers, NoodleTimers, StackGreen,
    TintTimers, Wave,
};
use dragonfruitvoid::timer::{Countdown, NANOS_PER_SEC};

const S: u64 = NANOS_PER_SEC;

#[test]
fn green_shows_then_detonates() {
    let mut g = StackGreen { visibility_start: Countdown::new_once(2 * S), detonation: Countdown::new_once(6 * S) };
    assert!(!g.step(S));
    assert!(!g.step(S));
    assert!(g.visibility_start.finished());
    assert_eq!(g.detonation.elapsed_ns, 0);
    assert!(g.step(S));
    assert!(!g.step(6 * S));
    assert!(g.detonation.just_finished());
    assert!(!g.step(S));
    assert!(!g.detonation.just_finished());
}

#[test]
fn wave_plays_sound_when_it_starts() {
    let mut w = Wave::new(0, 3 * S);
    let f = w.step(S / 10);
    assert!(!f.visible);
    assert!(f.play_shockwave);
    let f = w.step(S);
    assert!(f.visible);
    assert!(!f.play_shockwave);
    let f = w.step(3 * S);
    assert!(!f.visible);
    assert!(!f.play_shockwave);
}

#[test]
fn aoe_waits_hidden_then_detonates() {
    let mut a = AoeTimers { visibility_start: Some(Countdown::new_once(S)), detonation: Countdown::new_once(2 * S) };
    assert!(!a.step(S / 2));
    assert_eq!(a.detonation.elapsed_ns, 0);
    assert!(a.step(S / 2));
    assert_eq!(a.detonation.elapsed_ns, S / 2);
    assert!(!a.detonated());
    assert!(a.step(2 * S));
    assert!(a.detonated());
    let mut b = AoeTimers { visibility_start: None, detonation: Countdown::new_once(S) };
    assert!(b.step(S));
    assert!(b.detonated());
}

#[test]
fn soups_expire() {
    let mut none: Option<Countdown> = None;
    assert!(!soup_expired(&mut none, 100 * S));
    let mut d = Some(Countdown::new_once(5 * S));
    assert!(!soup_expired(&mut d, 4 * S));
    assert!(soup_expired(&mut d, S));
}

#[test]
fn noodles_emerge_then_slam() {
    let mut n = NoodleTimers { visibility_start: Countdown::new_once(5 * S), slam_cooldown: Countdown::new_repeating(5 * S) };
    let f = n.step(5 * S);
    assert!(!f.shown && !f.slam);
    let f = n.step(4 * S);
    assert!(f.shown && !f.slam);
    let f = n.step(S);
    assert!(f.shown && f.slam);
    assert_eq!(n.slam_cooldown.elapsed_ns, 0);
}

#[test]
fn tint_fades() {
    let mut t = TintTimers { tint: Countdown::new_once(S / 5), untint: Countdown::new_once(S / 2) };
    let f = t.step(S / 10);
    assert!(f.tinted && !f.done);
    let f = t.step(S / 5);
    assert!(!f.tinted && !f.done);
    let f = t.step(S);
    assert!(!f.tinted && f.done);
}

#[test]
fn puddles_follow_warn_and_drop() {
    let mut drop = Countdown::new_once(6 * S);
    let f = puddle_step(&mut drop, 3 * S);
    assert!(f.follows_target && !f.dropped && !f.warning);
    let f = puddle_step(&mut drop, S);
    assert!(!f.follows_target && !f.dropped && !f.warning);
    let f = puddle_step(&mut drop, S);
    assert!(!f.follows_target && !f.dropped && f.warning);
    let f = puddle_step(&mut drop, S);
    assert!(f.dropped && !f.warning);
    let f = puddle_step(&mut drop, S);
    assert!(!f.dropped && !f.follows_target && !f.warning);
}

#[test]
fn cooldowns_fire_and_restart() {
    let mut c = Countdown::new_repeating(S);
    assert!(!fire_when_ready(&mut c, S / 2));
    assert!(fire_when_ready(&mut c, S / 2));
    assert_eq!(c.elapsed_ns, 0);
    let mut once = Countdown::new_once(S);
    assert!(tick_just_finished(&mut once, 2 * S));
    assert!(!tick_just_finished(&mut once, 2 * S));
    let mut spreads = vec![Countdown::new_once(2 * S), Countdown::new_once(5 * S)];
    assert!(!tick_all_any_just_finished(&mut spreads, S));
    assert!(tick_all_any_just_finished(&mut spreads, S));
    assert!(!tick_all_any_just_finished(&mut spreads, S));
    assert!(tick_all_any_just_finished(&mut spreads, 2 * S));
}

#[test]
fn bees_leave_on_cooldown() {
    let mut c = Countdown::new_once(5 * S);
    assert!(release_bees(&mut c, 0, 4 * S).is_none());
    let b = release_bees(&mut c, 0, S).unwrap();
    assert!(b.heading < 8);
    assert!(b.moving);
    assert_eq!(c.elapsed_ns, 0);
    assert!(release_bees(&mut c, 1, 2 * S).is_none());
    let b = release_bees(&mut c, 1, S / 2).unwrap();
    assert!(!b.moving);
    assert!(b.heading < 8);
}

#[test]
fn portals_expire() {
    let mut entries = vec![Countdown::new_once(60 * S)];
    let mut exits: Vec<Countdown> = vec![];
    let r = expire_portals(&mut entries, &mut exits, 61 * S);
    assert_eq!(r.entries_expired, vec![true]);
    assert!(!r.close_all_entries);
    let mut entries = vec![Countdown::new_once(60 * S)];
    let mut exits = vec![Countdown::new_once(10 * S)];
    let r = expire_portals(&mut entries, &mut exits, 61 * S);
    assert_eq!(r.entries_expired, vec![false]);
    assert_eq!(entries[0].elapsed_ns, 0);
    assert_eq!(r.exits_expired, vec![true]);
    assert!(r.close_all_entries);
}

#[test]
fn controls() {
    assert_eq!(movement_direction(true, false, false, true), (1, 1));
    assert_eq!(movement_direction(true, true, true, false), (-1, 0));
    assert_eq!(movement_direction(false, false, false, false), (0, 0));
    assert_eq!(cast_portal(false, false), Some(PortalCast::Entry(500_000_000)));
    assert_eq!(cast_portal(true, false), Some(PortalCast::Exit(60_000_000_000)));
    assert_eq!(cast_portal(true, true), None);
}

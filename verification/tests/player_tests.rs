use dragonfruitvoid::controls::{cast_spells, PortalCast, SpellKeys};
use dragonfruitvoid::player::{
    PlayerTimers, BLINK_INVULN_NS, DODGE_DURATION_NS, JUMP_COOLDOWN_NS, JUMP_DURATION_NS,
    SHOOT_COOLDOWN_NS,
};

#[test]
fn new_player_has_skills_ready() {
    let p = PlayerTimers::new();
    assert!(p.dodge_cooldown.finished());
    assert!(p.blink_cooldown.finished());
    assert!(p.portal_cooldown.finished());
    assert!(p.pull_cooldown.finished());
    assert!(p.invuln.finished());
    assert!(p.jump.finished());
    assert!(!p.shoot_cooldown.finished());
    assert!(!p.jump_cooldown.finished());
    assert!(p.can_be_hit_by_wave());
}

#[test]
fn skills_protect_and_cool_down() {
    let mut p = PlayerTimers::new();
    p.start_dodge();
    assert!(!p.can_be_hit_by_wave());
    assert_eq!(p.invuln.duration_ns, DODGE_DURATION_NS);
    assert!(!p.dodge_cooldown.finished());
    p.tick_all(DODGE_DURATION_NS);
    assert!(p.can_be_hit_by_wave());
    assert!(p.shoot_cooldown.finished());
    p.start_blink();
    assert_eq!(p.invuln.duration_ns, BLINK_INVULN_NS);
    assert!(!p.blink_cooldown.finished());
    p.tick_all(BLINK_INVULN_NS);
    p.start_jump();
    assert_eq!(p.jump.duration_ns, JUMP_DURATION_NS);
    assert!(!p.can_be_hit_by_wave());
    p.make_untouchable(SHOOT_COOLDOWN_NS);
    assert_eq!(p.invuln.elapsed_ns, 0);
    p.wind_ready();
    assert!(p.dodge_cooldown.finished() && p.blink_cooldown.finished() && p.jump.finished());
    assert!(!p.jump_cooldown.finished());
}

#[test]
fn spell_keys_fire_ready_skills() {
    let mut p = PlayerTimers::new();
    p.tick_all(JUMP_COOLDOWN_NS);
    let all = SpellKeys { jump: true, dodge: true, blink: true, pull: true, portal: true };
    let casts = cast_spells(&mut p, all, false, false);
    assert!(casts.jumped && casts.dodged && casts.blinked && casts.pulled);
    assert_eq!(casts.portal, Some(PortalCast::Entry(500_000_000)));
    // the blink's short protection replaces the dodge's
    assert_eq!(p.invuln.duration_ns, BLINK_INVULN_NS);
    assert_eq!(p.jump.duration_ns, JUMP_DURATION_NS);
    assert_eq!(p.portal_cooldown.duration_ns, 500_000_000);
    assert!(!p.jump_cooldown.finished() && !p.dodge_cooldown.finished());
    assert!(!p.blink_cooldown.finished() && !p.pull_cooldown.finished());

    // nothing is ready on the next frame
    let before = p;
    let again = cast_spells(&mut p, all, true, false);
    assert!(!again.jumped && !again.dodged && !again.blinked && !again.pulled);
    assert_eq!(again.portal, None);
    assert_eq!(p, before);

    // half a second later the exit can be placed
    p.tick_all(500_000_000);
    let exit = cast_spells(&mut p, SpellKeys { jump: false, dodge: false, blink: false, pull: false, portal: true }, true, false);
    assert_eq!(exit.portal, Some(PortalCast::Exit(60_000_000_000)));
    assert_eq!(p.portal_cooldown.duration_ns, 60_000_000_000);
}

#[test]
fn dodge_alone_protects_for_the_dodge() {
    let mut p = PlayerTimers::new();
    let casts = cast_spells(&mut p, SpellKeys { jump: false, dodge: true, blink: false, pull: false, portal: false }, true, true);
    assert!(casts.dodged && !casts.blinked && !casts.jumped);
    assert_eq!(p.invuln.duration_ns, DODGE_DURATION_NS);
    assert!(p.blink_cooldown.finished());
}

use dragonfruitvoid::ai::{
    assign_orb_targets, choose_mobility, first_green_to_soak, get_push_team, green_team,
    handles_puddles, AiRole, MobilitySkill,
};
use dragonfruitvoid::script::StackGreen;
use dragonfruitvoid::state::GameState;
use dragonfruitvoid::timer::{Countdown, NANOS_PER_SEC};

#[test]
fn role_names_and_skills() {
    assert_eq!(AiRole::Virt2.to_string(), "Virtuoso");
    assert_eq!(AiRole::Herald1.to_string(), "Herald");
    assert_eq!(AiRole::Ham2.to_string(), "HAM");
    assert_eq!(AiRole::Dps3.to_string(), "DPS");
    assert!(AiRole::Virt1.is_blink_enabled());
    assert!(AiRole::Ham1.is_blink_enabled());
    assert!(!AiRole::Herald2.is_blink_enabled());
    assert!(!AiRole::Dps4.is_blink_enabled());
    assert_eq!(AiRole::Virt1.index(), 0);
    assert_eq!(AiRole::Dps4.index(), 9);
}

#[test]
fn push_and_green_teams() {
    assert_eq!(get_push_team(&AiRole::Virt1), 0);
    assert_eq!(get_push_team(&AiRole::Herald2), 1);
    assert_eq!(get_push_team(&AiRole::Dps1), 2);
    assert_eq!(green_team(&GameState::Jormag, &AiRole::Ham1), Some(2));
    assert_eq!(green_team(&GameState::Jormag, &AiRole::Dps3), None);
    assert_eq!(green_team(&GameState::SooWonOne, &AiRole::Dps3), Some(2));
    assert_eq!(green_team(&GameState::SooWonTwo, &AiRole::Ham1), None);
    assert_eq!(green_team(&GameState::SooWonTwo, &AiRole::Dps1), None);
    assert_eq!(green_team(&GameState::Zhaitan, &AiRole::Herald1), Some(1));
    assert!(handles_puddles(&AiRole::Ham2));
    assert!(!handles_puddles(&AiRole::Virt2));
}

#[test]
fn mobility_prefers_dodge_then_blink() {
    assert_eq!(choose_mobility(true, true, true, &AiRole::Dps1), MobilitySkill::Dodge);
    assert_eq!(choose_mobility(true, false, true, &AiRole::Virt1), MobilitySkill::Blink);
    assert_eq!(choose_mobility(true, false, true, &AiRole::Dps1), MobilitySkill::Walk);
    assert_eq!(choose_mobility(false, true, true, &AiRole::Virt1), MobilitySkill::Walk);
}

#[test]
fn orb_targets_for_each_team() {
    let targets = vec![0, 1, 2];
    let a = assign_orb_targets(&targets, 0, 0);
    assert_eq!(a.target, Some(0));
    assert_eq!(a.dest, Some(0));
    assert!(a.is_active);
    let b = assign_orb_targets(&targets, 0, 1);
    assert_eq!(b.target, Some(1));
    assert_eq!(b.dest, Some(0));
    assert!(!b.is_active);
    let c = assign_orb_targets(&targets, 1, 0);
    assert_eq!(c.target, Some(2));
    assert_eq!(c.dest, Some(1));
    assert!(!c.is_active);
    let d = assign_orb_targets(&targets, 0, 2);
    assert_eq!(d.target, None);
    assert!(!d.is_active);
    let e = assign_orb_targets(&targets, 3, 1);
    assert_eq!(e.target, None);
    assert_eq!(e.dest, None);
}

#[test]
fn orb_targets_ties_negatives_and_cap() {
    let targets = vec![2, 0, 2, -1, -2, 10001];
    let a = assign_orb_targets(&targets, -2, 0);
    assert_eq!(a.target, Some(4));
    assert_eq!(a.dest, Some(4));
    assert!(a.is_active);
    let b = assign_orb_targets(&targets, 1, 0);
    assert_eq!(b.target, Some(2));
    assert_eq!(b.dest, None);
    let c = assign_orb_targets(&targets, -1, 1);
    assert_eq!(c.target, None);
    assert_eq!(c.dest, Some(3));
    let d = assign_orb_targets(&targets, 9999, 1);
    assert_eq!(d.target, None);
    assert!(d.is_active);
}

#[test]
fn soakers_pick_the_first_green_in_its_window() {
    let mut far = StackGreen {
        visibility_start: Countdown::new_once(20 * NANOS_PER_SEC),
        detonation: Countdown::new_once(6 * NANOS_PER_SEC),
    };
    let mut near = far;
    near.visibility_start.tick(18 * NANOS_PER_SEC);
    let mut gone = near;
    gone.detonation.tick(7 * NANOS_PER_SEC);
    far.visibility_start.tick(NANOS_PER_SEC);
    assert_eq!(first_green_to_soak(&vec![far, gone, near, near]), Some(2));
    assert_eq!(first_green_to_soak(&vec![far, gone]), None);
}

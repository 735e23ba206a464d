use dragonfruitvoid::state::{
    boss_defeated, escape_pressed, next_game_state, orb_targets_cleared, run_if_boss_phase_update,
    run_if_phase_update, run_if_purification_phase_update, GameState, MenuState, PhaseCleared,
};

const FIGHT: [GameState; 11] = [
    GameState::PurificationOne,
    GameState::Jormag,
    GameState::Primordus,
    GameState::Kralkatorrik,
    GameState::PurificationTwo,
    GameState::Mordremoth,
    GameState::Zhaitan,
    GameState::PurificationThree,
    GameState::SooWonOne,
    GameState::PurificationFour,
    GameState::SooWonTwo,
];

#[test]
fn whole_fight_goes_in_order() {
    let mut s = GameState::PurificationOne;
    for expected in FIGHT.iter().skip(1) {
        s = next_game_state(s);
        assert_eq!(s, *expected);
    }
    assert_eq!(next_game_state(GameState::SooWonTwo), GameState::SooWonTwo);
    assert_eq!(next_game_state(GameState::Nothing), GameState::Nothing);
}

#[test]
fn phase_sets_run_only_unpaused() {
    for s in FIGHT {
        assert!(run_if_phase_update(MenuState::Unpaused, s));
        assert!(!run_if_phase_update(MenuState::Paused, s));
        assert!(!(run_if_boss_phase_update(MenuState::Unpaused, s)
            && run_if_purification_phase_update(MenuState::Unpaused, s)));
    }
    assert!(!run_if_phase_update(MenuState::Unpaused, GameState::Nothing));
    assert!(run_if_boss_phase_update(MenuState::Unpaused, GameState::Jormag));
    assert!(!run_if_boss_phase_update(MenuState::Unpaused, GameState::PurificationFour));
    assert!(!run_if_purification_phase_update(MenuState::Unpaused, GameState::PurificationFour));
    assert!(run_if_purification_phase_update(MenuState::Unpaused, GameState::PurificationTwo));
    assert!(!run_if_purification_phase_update(MenuState::PausedShowHint, GameState::PurificationTwo));
}

#[test]
fn escape_pauses_and_resumes() {
    assert_eq!(escape_pressed(MenuState::Unpaused), Some(MenuState::Paused));
    assert_eq!(escape_pressed(MenuState::Paused), Some(MenuState::Unpaused));
    assert_eq!(escape_pressed(MenuState::PausedShowHint), Some(MenuState::Unpaused));
    assert_eq!(escape_pressed(MenuState::StartMenu), None);
    assert_eq!(escape_pressed(MenuState::Failure), None);
    assert_eq!(escape_pressed(MenuState::Success), None);
    assert_eq!(escape_pressed(MenuState::Loading), None);
}

#[test]
fn cleared_phases() {
    assert_eq!(boss_defeated(true, GameState::Jormag), PhaseCleared::Advance(GameState::Primordus));
    assert_eq!(boss_defeated(true, GameState::SooWonTwo), PhaseCleared::ShowSuccess);
    assert_eq!(boss_defeated(false, GameState::Jormag), PhaseCleared::ShowSuccess);
    assert_eq!(
        orb_targets_cleared(true, GameState::PurificationThree),
        PhaseCleared::Advance(GameState::SooWonOne)
    );
    assert_eq!(orb_targets_cleared(false, GameState::PurificationOne), PhaseCleared::ShowSuccess);
}

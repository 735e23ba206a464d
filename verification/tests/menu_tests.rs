use dragonfruitvoid::menu::{
    elapsed_parts, hint_screen_buttons, option_buttons, pause_menu_buttons, phase_buttons,
    press_next_state_button, press_onoff_button, result_screen_buttons, success_message,
    ButtonNextState, ButtonOnOff, GameOptions, MenuCommand, FAILURE_MESSAGE,
};
use dragonfruitvoid::state::{GameState, MenuState};

fn defaults() -> GameOptions {
    GameOptions {
        continuous: false,
        hints_enabled: true,
        echo_enabled: false,
        puddles_enabled: true,
        greens_enabled: true,
        unlimited_range_enabled: true,
    }
}

#[test]
fn phase_and_menu_buttons() {
    let mut o = defaults();
    o.continuous = true;
    let cmd = press_next_state_button(&ButtonNextState::GoTo(GameState::Zhaitan), GameState::Nothing, &mut o);
    assert!(!o.continuous);
    assert_eq!(
        cmd,
        MenuCommand {
            next_game_state: Some(GameState::Zhaitan),
            next_menu_state: MenuState::Unpaused,
            despawn_players: false
        }
    );
    let cmd = press_next_state_button(&ButtonNextState::StartContinuous(), GameState::Nothing, &mut o);
    assert!(o.continuous);
    assert_eq!(cmd.next_game_state, Some(GameState::PurificationOne));
    let cmd = press_next_state_button(&ButtonNextState::Restart(), GameState::Mordremoth, &mut o);
    assert_eq!(cmd.next_game_state, Some(GameState::Mordremoth));
    assert!(cmd.despawn_players);
    assert!(o.continuous);
    let cmd = press_next_state_button(&ButtonNextState::Resume(), GameState::Mordremoth, &mut o);
    assert_eq!(cmd.next_game_state, None);
    assert_eq!(cmd.next_menu_state, MenuState::Unpaused);
    let cmd = press_next_state_button(&ButtonNextState::Exit(), GameState::Mordremoth, &mut o);
    assert_eq!(cmd.next_game_state, Some(GameState::Nothing));
    assert_eq!(cmd.next_menu_state, MenuState::StartMenu);
}

#[test]
fn toggles_flip_and_label() {
    let mut o = defaults();
    let mut b = ButtonOnOff::Hints();
    assert_eq!(press_onoff_button(&mut b, &mut o), "Hints: OFF");
    assert!(!o.hints_enabled);
    assert_eq!(press_onoff_button(&mut b, &mut o), "Hints: ON");
    assert_eq!(o, defaults());
    let mut g = ButtonOnOff::Greens();
    assert_eq!(press_onoff_button(&mut g, &mut o), "Require Greens: OFF");
    let mut p = ButtonOnOff::Puddles();
    assert_eq!(press_onoff_button(&mut p, &mut o), "Spawn Reds: OFF");
    let mut u = ButtonOnOff::UnlimitedRange();
    assert_eq!(press_onoff_button(&mut u, &mut o), "Unlimited Range: OFF");
    assert!(!o.greens_enabled && !o.puddles_enabled && !o.unlimited_range_enabled);
}

#[test]
fn echo_button_argues_first() {
    let mut o = defaults();
    let mut b = ButtonOnOff::Echo(17);
    assert_eq!(press_onoff_button(&mut b, &mut o), "Stop: OFF");
    assert_eq!(b, ButtonOnOff::Echo(16));
    assert_eq!(press_onoff_button(&mut b, &mut o), "No: OFF");
    for _ in 0..14 {
        press_onoff_button(&mut b, &mut o);
    }
    assert_eq!(press_onoff_button(&mut b, &mut o), "DEATH: OFF");
    assert_eq!(b, ButtonOnOff::Echo(0));
    assert_eq!(o, defaults());
    assert_eq!(press_onoff_button(&mut b, &mut o), "Ender's Echo: ON");
    assert!(o.echo_enabled);
}

#[test]
fn button_lists() {
    let phases = phase_buttons();
    assert_eq!(phases.len(), 12);
    assert_eq!(phases[0], ("The Whole Fight", ButtonNextState::StartContinuous()));
    assert_eq!(phases[9], ("Soo-Won One", ButtonNextState::GoTo(GameState::SooWonOne)));
    assert_eq!(pause_menu_buttons(), vec![("Resume", ButtonNextState::Resume()), ("Exit", ButtonNextState::Exit())]);
    assert_eq!(result_screen_buttons(), vec![("Restart", ButtonNextState::Restart()), ("Exit", ButtonNextState::Exit())]);
    assert_eq!(hint_screen_buttons(), vec![("Continue", ButtonNextState::Resume())]);
    let opts = option_buttons(&defaults());
    assert_eq!(opts.len(), 5);
    assert_eq!(opts[0], ("Hints: ON".to_string(), ButtonOnOff::Hints()));
    assert_eq!(opts[4], ("Ender's Echo: OFF".to_string(), ButtonOnOff::Echo(17)));
    let mut on = defaults();
    on.echo_enabled = true;
    assert_eq!(option_buttons(&on)[4], ("Ender's Echo: ON".to_string(), ButtonOnOff::Echo(0)));
}

#[test]
fn result_screen_texts() {
    assert_eq!(success_message(true), "You win!");
    assert_eq!(success_message(false), "Phase cleared!");
    assert_eq!(FAILURE_MESSAGE, "You died :(");
    assert_eq!(elapsed_parts(0), (0, 0, 0));
    assert_eq!(elapsed_parts(754_321), (12, 34, 321));
    assert_eq!(elapsed_parts(59_999), (0, 59, 999));
}

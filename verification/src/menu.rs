//! The start, pause, result and hint menus: their buttons and what pressing
//! one does.

use vstd::prelude::*;
use crate::state::{GameState, MenuState};

verus! {

/// The options that the start menu toggles, and whether the whole fight
/// is being played.
#[derive(Clone, Copy, PartialEq, Eq, Structural, Debug)]
pub struct GameOptions {
    pub continuous: bool,
    pub hints_enabled: bool,
    pub echo_enabled: bool,
    pub puddles_enabled: bool,
    pub greens_enabled: bool,
    pub unlimited_range_enabled: bool,
}

/// A button that changes the phase or the menu.
#[derive(Clone, Copy, PartialEq, Eq, Structural, Debug)]
pub enum ButtonNextState {
    GoTo(GameState),
    StartContinuous(),
    Resume(),
    Restart(),
    Exit(),
}

/// A button that turns an option on or off. The echo button first counts
/// down its stubborn replies.
#[derive(Clone, Copy, PartialEq, Eq, Structural, Debug)]
pub enum ButtonOnOff {
    Hints(),
    Echo(usize),
    UnlimitedRange(),
    Puddles(),
    Greens(),
}

/// What pressing a phase or menu button asks for.
#[derive(Clone, Copy, PartialEq, Eq, Structural, Debug)]
pub struct MenuCommand {
    pub next_game_state: Option<GameState>,
    pub next_menu_state: MenuState,
    pub despawn_players: bool,
}

/// The effect of a phase or menu button on the options.
pub open spec fn spec_options_after_next_state(button: ButtonNextState, options: GameOptions) -> GameOptions {
    match button {
        ButtonNextState::GoTo(_) => GameOptions { continuous: false, ..options },
        ButtonNextState::StartContinuous() => GameOptions { continuous: true, ..options },
        _ => options,
    }
}

/// What a phase or menu button asks for: a single phase or the whole fight
/// starts unpaused, resume unpauses, restart plays the current phase again
/// without the players of this try, exit leaves for the start menu.
pub open spec fn spec_menu_command(button: ButtonNextState, current: GameState) -> MenuCommand {
    match button {
        ButtonNextState::GoTo(s) => MenuCommand {
            next_game_state: Some(s),
            next_menu_state: MenuState::Unpaused,
            despawn_players: false,
        },
        ButtonNextState::StartContinuous() => MenuCommand {
            next_game_state: Some(GameState::PurificationOne),
            next_menu_state: MenuState::Unpaused,
            despawn_players: false,
        },
        ButtonNextState::Resume() => MenuCommand {
            next_game_state: None,
            next_menu_state: MenuState::Unpaused,
            despawn_players: false,
        },
        ButtonNextState::Restart() => MenuCommand {
            next_game_state: Some(current),
            next_menu_state: MenuState::Unpaused,
            despawn_players: true,
        },
        ButtonNextState::Exit() => MenuCommand {
            next_game_state: Some(GameState::Nothing),
            next_menu_state: MenuState::StartMenu,
            despawn_players: false,
        },
    }
}

/// Presses a phase or menu button.
pub fn press_next_state_button(button: &ButtonNextState, current: GameState, options: &mut GameOptions) -> (cmd: MenuCommand)
    ensures
        *final(options) == spec_options_after_next_state(*button, *old(options)),
        cmd == spec_menu_command(*button, current),
{
    match button {
        ButtonNextState::GoTo(next_state) => {
            options.continuous = false;
            MenuCommand {
                next_game_state: Some(*next_state),
                next_menu_state: MenuState::Unpaused,
                despawn_players: false,
            }
        },
        ButtonNextState::StartContinuous() => {
            options.continuous = true;
            MenuCommand {
                next_game_state: Some(GameState::PurificationOne),
                next_menu_state: MenuState::Unpaused,
                despawn_players: false,
            }
        },
        ButtonNextState::Resume() => MenuCommand {
            next_game_state: None,
            next_menu_state: MenuState::Unpaused,
            despawn_players: false,
        },
        ButtonNextState::Restart() => MenuCommand {
            next_game_state: Some(current),
            next_menu_state: MenuState::Unpaused,
            despawn_players: true,
        },
        ButtonNextState::Exit() => MenuCommand {
            next_game_state: Some(GameState::Nothing),
            next_menu_state: MenuState::StartMenu,
            despawn_players: false,
        },
    }
}

/// The most replies the echo button gives before it gives in.
pub const ECHO_REPLIES: usize = 17;

/// The echo button's replies, in the order they come.
pub open spec fn echo_replies() -> Seq<Seq<char>> {
    seq![
        "Stop"@, "No"@, "Bad idea"@, "Don't!"@, "Mortals"@, "You believe"@, "Yourselves"@,
        "Saviors"@, "Naturally"@, "You seek"@, "To write"@, "The conclusion"@,
        "Of your legend"@, "But there is"@, "No conclusion"@, "More natural than"@, "DEATH"@,
    ]
}

/// The text of an on/off button: its label, a colon and its state.
pub open spec fn onoff_text(label: Seq<char>, on: bool) -> Seq<char> {
    label + ": "@ + (if on { "ON"@ } else { "OFF"@ })
}

/// The state of an on/off button and of the options after a press.
pub open spec fn spec_press_onoff(button: ButtonOnOff, options: GameOptions) -> (ButtonOnOff, GameOptions) {
    match button {
        ButtonOnOff::Hints() => (button, GameOptions { hints_enabled: !options.hints_enabled, ..options }),
        ButtonOnOff::Greens() => (button, GameOptions { greens_enabled: !options.greens_enabled, ..options }),
        ButtonOnOff::Puddles() => (button, GameOptions { puddles_enabled: !options.puddles_enabled, ..options }),
        ButtonOnOff::UnlimitedRange() => (
            button,
            GameOptions { unlimited_range_enabled: !options.unlimited_range_enabled, ..options },
        ),
        ButtonOnOff::Echo(v) => if v > 0 {
            (ButtonOnOff::Echo((v - 1) as usize), options)
        } else {
            (button, GameOptions { echo_enabled: !options.echo_enabled, ..options })
        },
    }
}

/// The text an on/off button shows after a press.
pub open spec fn spec_onoff_pressed_text(button: ButtonOnOff, options: GameOptions) -> Seq<char> {
    let after = spec_press_onoff(button, options).1;
    match button {
        ButtonOnOff::Hints() => onoff_text("Hints"@, after.hints_enabled),
        ButtonOnOff::Greens() => onoff_text("Require Greens"@, after.greens_enabled),
        ButtonOnOff::Puddles() => onoff_text("Spawn Reds"@, after.puddles_enabled),
        ButtonOnOff::UnlimitedRange() => onoff_text("Unlimited Range"@, after.unlimited_range_enabled),
        ButtonOnOff::Echo(v) => onoff_text(
            if v > 0 { echo_replies()[ECHO_REPLIES - v] } else { "Ender's Echo"@ },
            after.echo_enabled,
        ),
    }
}

fn onoff_label_text(label: &str, on: bool) -> (text: String)
    ensures
        text@ == onoff_text(label@, on),
{
    let text = String::from_str(label).concat(": ");
    if on {
        text.concat("ON")
    } else {
        text.concat("OFF")
    }
}

fn echo_reply(index: usize) -> (reply: &'static str)
    requires
        index < ECHO_REPLIES,
    ensures
        reply@ == echo_replies()[index as int],
{
    let replies = [
        "Stop", "No", "Bad idea", "Don't!", "Mortals", "You believe", "Yourselves", "Saviors",
        "Naturally", "You seek", "To write", "The conclusion", "Of your legend", "But there is",
        "No conclusion", "More natural than", "DEATH",
    ];
    replies[index]
}

/// Presses an on/off button: it flips its option, except that the echo
/// button first answers with its replies; returns the button's new text.
pub fn press_onoff_button(button: &mut ButtonOnOff, options: &mut GameOptions) -> (text: String)
    requires
        *old(button) matches ButtonOnOff::Echo(v) ==> v <= ECHO_REPLIES,
    ensures
        (*final(button), *final(options)) == spec_press_onoff(*old(button), *old(options)),
        text@ == spec_onoff_pressed_text(*old(button), *old(options)),
{
    match button {
        ButtonOnOff::Hints() => {
            options.hints_enabled = !options.hints_enabled;
            onoff_label_text("Hints", options.hints_enabled)
        },
        ButtonOnOff::Greens() => {
            options.greens_enabled = !options.greens_enabled;
            onoff_label_text("Require Greens", options.greens_enabled)
        },
        ButtonOnOff::Puddles() => {
            options.puddles_enabled = !options.puddles_enabled;
            onoff_label_text("Spawn Reds", options.puddles_enabled)
        },
        ButtonOnOff::UnlimitedRange() => {
            options.unlimited_range_enabled = !options.unlimited_range_enabled;
            onoff_label_text("Unlimited Range", options.unlimited_range_enabled)
        },
        ButtonOnOff::Echo(val) => {
            let v = *val;
            if v > 0 {
                let label = echo_reply(ECHO_REPLIES - v);
                *button = ButtonOnOff::Echo(v - 1);
                onoff_label_text(label, options.echo_enabled)
            } else {
                options.echo_enabled = !options.echo_enabled;
                onoff_label_text("Ender's Echo", options.echo_enabled)
            }
        },
    }
}

/// The phase buttons of the start menu, in order: the whole fight, then
/// each phase.
pub open spec fn spec_phase_buttons() -> Seq<(Seq<char>, ButtonNextState)> {
    seq![
        ("The Whole Fight"@, ButtonNextState::StartContinuous()),
        ("Purification One"@, ButtonNextState::GoTo(GameState::PurificationOne)),
        ("Jormag"@, ButtonNextState::GoTo(GameState::Jormag)),
        ("Primordus"@, ButtonNextState::GoTo(GameState::Primordus)),
        ("Kralkatorrik"@, ButtonNextState::GoTo(GameState::Kralkatorrik)),
        ("Purification Two"@, ButtonNextState::GoTo(GameState::PurificationTwo)),
        ("Mordremoth"@, ButtonNextState::GoTo(GameState::Mordremoth)),
        ("Zhaitan"@, ButtonNextState::GoTo(GameState::Zhaitan)),
        ("Purification Three"@, ButtonNextState::GoTo(GameState::PurificationThree)),
        ("Soo-Won One"@, ButtonNextState::GoTo(GameState::SooWonOne)),
        ("Purification Four"@, ButtonNextState::GoTo(GameState::PurificationFour)),
        ("Soo-Won Two"@, ButtonNextState::GoTo(GameState::SooWonTwo)),
    ]
}

/// The views of a list of labelled buttons.
pub open spec fn button_views(buttons: Seq<(&'static str, ButtonNextState)>) -> Seq<(Seq<char>, ButtonNextState)> {
    buttons.map_values(|b: (&'static str, ButtonNextState)| (b.0@, b.1))
}

/// The phase buttons of the start menu.
pub fn phase_buttons() -> (buttons: Vec<(&'static str, ButtonNextState)>)
    ensures
        button_views(buttons@) == spec_phase_buttons(),
{
    let buttons = vec![
        ("The Whole Fight", ButtonNextState::StartContinuous()),
        ("Purification One", ButtonNextState::GoTo(GameState::PurificationOne)),
        ("Jormag", ButtonNextState::GoTo(GameState::Jormag)),
        ("Primordus", ButtonNextState::GoTo(GameState::Primordus)),
        ("Kralkatorrik", ButtonNextState::GoTo(GameState::Kralkatorrik)),
        ("Purification Two", ButtonNextState::GoTo(GameState::PurificationTwo)),
        ("Mordremoth", ButtonNextState::GoTo(GameState::Mordremoth)),
        ("Zhaitan", ButtonNextState::GoTo(GameState::Zhaitan)),
        ("Purification Three", ButtonNextState::GoTo(GameState::PurificationThree)),
        ("Soo-Won One", ButtonNextState::GoTo(GameState::SooWonOne)),
        ("Purification Four", ButtonNextState::GoTo(GameState::PurificationFour)),
        ("Soo-Won Two", ButtonNextState::GoTo(GameState::SooWonTwo)),
    ];
    assert(button_views(buttons@) =~= spec_phase_buttons());
    buttons
}

/// The buttons of the pause menu.
pub fn pause_menu_buttons() -> (buttons: Vec<(&'static str, ButtonNextState)>)
    ensures
        button_views(buttons@) == seq![("Resume"@, ButtonNextState::Resume()), ("Exit"@, ButtonNextState::Exit())],
{
    let buttons = vec![("Resume", ButtonNextState::Resume()), ("Exit", ButtonNextState::Exit())];
    assert(button_views(buttons@) =~= seq![("Resume"@, ButtonNextState::Resume()), ("Exit"@, ButtonNextState::Exit())]);
    buttons
}

/// The buttons of the success and failure screens.
pub fn result_screen_buttons() -> (buttons: Vec<(&'static str, ButtonNextState)>)
    ensures
        button_views(buttons@) == seq![("Restart"@, ButtonNextState::Restart()), ("Exit"@, ButtonNextState::Exit())],
{
    let buttons = vec![("Restart", ButtonNextState::Restart()), ("Exit", ButtonNextState::Exit())];
    assert(button_views(buttons@) =~= seq![("Restart"@, ButtonNextState::Restart()), ("Exit"@, ButtonNextState::Exit())]);
    buttons
}

/// The button under a hint.
pub fn hint_screen_buttons() -> (buttons: Vec<(&'static str, ButtonNextState)>)
    ensures
        button_views(buttons@) == seq![("Continue"@, ButtonNextState::Resume())],
{
    let buttons = vec![("Continue", ButtonNextState::Resume())];
    assert(button_views(buttons@) =~= seq![("Continue"@, ButtonNextState::Resume())]);
    buttons
}

/// The option buttons of the start menu and the text each shows: its label
/// and its state; the echo button starts its replies only while the echo is
/// off.
pub open spec fn spec_option_buttons(options: GameOptions) -> Seq<(Seq<char>, ButtonOnOff)> {
    seq![
        (onoff_text("Hints"@, options.hints_enabled), ButtonOnOff::Hints()),
        (onoff_text("Require Greens"@, options.greens_enabled), ButtonOnOff::Greens()),
        (onoff_text("Spawn Reds"@, options.puddles_enabled), ButtonOnOff::Puddles()),
        (onoff_text("Unlimited Range"@, options.unlimited_range_enabled), ButtonOnOff::UnlimitedRange()),
        (
            onoff_text("Ender's Echo"@, options.echo_enabled),
            ButtonOnOff::Echo(if options.echo_enabled { 0usize } else { ECHO_REPLIES }),
        ),
    ]
}

/// The option buttons of the start menu with their texts.
pub fn option_buttons(options: &GameOptions) -> (buttons: Vec<(String, ButtonOnOff)>)
    ensures
        buttons@.map_values(|b: (String, ButtonOnOff)| (b.0@, b.1)) == spec_option_buttons(*options),
{
    let echo_eggs: usize = if options.echo_enabled { 0 } else { ECHO_REPLIES };
    let buttons = vec![
        (onoff_label_text("Hints", options.hints_enabled), ButtonOnOff::Hints()),
        (onoff_label_text("Require Greens", options.greens_enabled), ButtonOnOff::Greens()),
        (onoff_label_text("Spawn Reds", options.puddles_enabled), ButtonOnOff::Puddles()),
        (onoff_label_text("Unlimited Range", options.unlimited_range_enabled), ButtonOnOff::UnlimitedRange()),
        (onoff_label_text("Ender's Echo", options.echo_enabled), ButtonOnOff::Echo(echo_eggs)),
    ];
    assert(buttons@.map_values(|b: (String, ButtonOnOff)| (b.0@, b.1)) =~= spec_option_buttons(*options));
    buttons
}

/// The headline of the success screen.
pub fn success_message(continuous: bool) -> (m: &'static str)
    ensures
        m@ == (if continuous { "You win!"@ } else { "Phase cleared!"@ }),
{
    if continuous {
        "You win!"
    } else {
        "Phase cleared!"
    }
}

/// The headline of the failure screen.
pub const FAILURE_MESSAGE: &'static str = "You died :(";

/// A fight time split for display as minutes, seconds and milliseconds.
pub fn elapsed_parts(elapsed_ms: u64) -> (parts: (u64, u64, u64))
    ensures
        parts.0 * 60000 + parts.1 * 1000 + parts.2 == elapsed_ms,
        parts.1 < 60,
        parts.2 < 1000,
{
    let minutes = elapsed_ms / 60000;
    let seconds = (elapsed_ms / 1000) % 60;
    let millis = elapsed_ms % 1000;
    assert(minutes * 60000 + seconds * 1000 + millis == elapsed_ms) by (nonlinear_arith)
        requires
            minutes == elapsed_ms / 60000,
            seconds == (elapsed_ms / 1000) % 60,
            millis == elapsed_ms % 1000,
    {
        let s = elapsed_ms / 1000;
        assert(elapsed_ms == s * 1000 + millis);
        assert(s == (s / 60) * 60 + seconds);
        assert(s / 60 == elapsed_ms / 60000);
    }
    (minutes, seconds, millis)
}

/// `n` presses of an on/off button.
pub open spec fn press_onoff_n(button: ButtonOnOff, options: GameOptions, n: nat) -> (ButtonOnOff, GameOptions)
    decreases n,
{
    if n == 0 {
        (button, options)
    } else {
        let (b, o) = press_onoff_n(button, options, (n - 1) as nat);
        spec_press_onoff(b, o)
    }
}

/// Pressing an option button twice leaves the options as they were.
pub proof fn lemma_toggle_twice_restores(button: ButtonOnOff, options: GameOptions)
    requires
        !(button is Echo) || button == ButtonOnOff::Echo(0),
    ensures
        press_onoff_n(button, options, 2) == (button, options),
{
    reveal_with_fuel(press_onoff_n, 3);
}

/// The echo button answers `k` times without changing any option, and only
/// the press after that turns the echo on or off.
pub proof fn lemma_echo_replies_before_toggling(k: usize, options: GameOptions)
    requires
        k <= ECHO_REPLIES,
    ensures
        press_onoff_n(ButtonOnOff::Echo(k), options, k as nat) == (ButtonOnOff::Echo(0), options),
        press_onoff_n(ButtonOnOff::Echo(k), options, (k + 1) as nat).1 == (GameOptions {
            echo_enabled: !options.echo_enabled,
            ..options
        }),
    decreases k,
{
    lemma_echo_countdown(k, options, k as nat);
}

proof fn lemma_echo_countdown(k: usize, options: GameOptions, n: nat)
    requires
        n <= k,
    ensures
        press_onoff_n(ButtonOnOff::Echo(k), options, n) == (ButtonOnOff::Echo((k - n) as usize), options),
    decreases n,
{
    if n > 0 {
        lemma_echo_countdown(k, options, (n - 1) as nat);
    }
}

/// Every phase of the fight can be practised on its own from the start
/// menu, and the whole fight has its button too.
pub proof fn lemma_every_phase_has_a_button(s: GameState)
    requires
        s != GameState::Nothing,
    ensures
        exists|i: int| 0 <= i < spec_phase_buttons().len() && (#[trigger] spec_phase_buttons()[i]).1 == ButtonNextState::GoTo(s),
        spec_phase_buttons()[0].1 == ButtonNextState::StartContinuous(),
{
    let b = spec_phase_buttons();
    match s {
        GameState::PurificationOne => assert(b[1].1 == ButtonNextState::GoTo(s)),
        GameState::Jormag => assert(b[2].1 == ButtonNextState::GoTo(s)),
        GameState::Primordus => assert(b[3].1 == ButtonNextState::GoTo(s)),
        GameState::Kralkatorrik => assert(b[4].1 == ButtonNextState::GoTo(s)),
        GameState::PurificationTwo => assert(b[5].1 == ButtonNextState::GoTo(s)),
        GameState::Mordremoth => assert(b[6].1 == ButtonNextState::GoTo(s)),
        GameState::Zhaitan => assert(b[7].1 == ButtonNextState::GoTo(s)),
        GameState::PurificationThree => assert(b[8].1 == ButtonNextState::GoTo(s)),
        GameState::SooWonOne => assert(b[9].1 == ButtonNextState::GoTo(s)),
        GameState::PurificationFour => assert(b[10].1 == ButtonNextState::GoTo(s)),
        GameState::SooWonTwo => assert(b[11].1 == ButtonNextState::GoTo(s)),
        GameState::Nothing => {},
    }
}

/// Each option button flips its own option and no other, and then shows its
/// label with the option's new state: "Hints" for the hints, "Require
/// Greens" for the greens, "Spawn Reds" for the red puddles, "Unlimited
/// Range" for the range. An echo button that has run out of replies flips
/// only the echo.
pub proof fn lemma_option_button_flips_only_its_option(o: GameOptions)
    ensures
        ({
            &&& spec_press_onoff(ButtonOnOff::Hints(), o).0 == ButtonOnOff::Hints()
            &&& spec_press_onoff(ButtonOnOff::Hints(), o).1.hints_enabled == !o.hints_enabled
            &&& spec_press_onoff(ButtonOnOff::Hints(), o).1.continuous == o.continuous
            &&& spec_press_onoff(ButtonOnOff::Hints(), o).1.echo_enabled == o.echo_enabled
            &&& spec_press_onoff(ButtonOnOff::Hints(), o).1.puddles_enabled == o.puddles_enabled
            &&& spec_press_onoff(ButtonOnOff::Hints(), o).1.greens_enabled == o.greens_enabled
            &&& spec_press_onoff(ButtonOnOff::Hints(), o).1.unlimited_range_enabled == o.unlimited_range_enabled
            &&& spec_onoff_pressed_text(ButtonOnOff::Hints(), o) == onoff_text("Hints"@, !o.hints_enabled)
            &&& spec_press_onoff(ButtonOnOff::Greens(), o).0 == ButtonOnOff::Greens()
            &&& spec_press_onoff(ButtonOnOff::Greens(), o).1.greens_enabled == !o.greens_enabled
            &&& spec_press_onoff(ButtonOnOff::Greens(), o).1.continuous == o.continuous
            &&& spec_press_onoff(ButtonOnOff::Greens(), o).1.hints_enabled == o.hints_enabled
            &&& spec_press_onoff(ButtonOnOff::Greens(), o).1.echo_enabled == o.echo_enabled
            &&& spec_press_onoff(ButtonOnOff::Greens(), o).1.puddles_enabled == o.puddles_enabled
            &&& spec_press_onoff(ButtonOnOff::Greens(), o).1.unlimited_range_enabled == o.unlimited_range_enabled
            &&& spec_onoff_pressed_text(ButtonOnOff::Greens(), o) == onoff_text("Require Greens"@, !o.greens_enabled)
            &&& spec_press_onoff(ButtonOnOff::Puddles(), o).0 == ButtonOnOff::Puddles()
            &&& spec_press_onoff(ButtonOnOff::Puddles(), o).1.puddles_enabled == !o.puddles_enabled
            &&& spec_press_onoff(ButtonOnOff::Puddles(), o).1.continuous == o.continuous
            &&& spec_press_onoff(ButtonOnOff::Puddles(), o).1.hints_enabled == o.hints_enabled
            &&& spec_press_onoff(ButtonOnOff::Puddles(), o).1.echo_enabled == o.echo_enabled
            &&& spec_press_onoff(ButtonOnOff::Puddles(), o).1.greens_enabled == o.greens_enabled
            &&& spec_press_onoff(ButtonOnOff::Puddles(), o).1.unlimited_range_enabled == o.unlimited_range_enabled
            &&& spec_onoff_pressed_text(ButtonOnOff::Puddles(), o) == onoff_text("Spawn Reds"@, !o.puddles_enabled)
            &&& spec_press_onoff(ButtonOnOff::UnlimitedRange(), o).0 == ButtonOnOff::UnlimitedRange()
            &&& spec_press_onoff(ButtonOnOff::UnlimitedRange(), o).1.unlimited_range_enabled == !o.unlimited_range_enabled
            &&& spec_press_onoff(ButtonOnOff::UnlimitedRange(), o).1.continuous == o.continuous
            &&& spec_press_onoff(ButtonOnOff::UnlimitedRange(), o).1.hints_enabled == o.hints_enabled
            &&& spec_press_onoff(ButtonOnOff::UnlimitedRange(), o).1.echo_enabled == o.echo_enabled
            &&& spec_press_onoff(ButtonOnOff::UnlimitedRange(), o).1.puddles_enabled == o.puddles_enabled
            &&& spec_press_onoff(ButtonOnOff::UnlimitedRange(), o).1.greens_enabled == o.greens_enabled
            &&& spec_onoff_pressed_text(ButtonOnOff::UnlimitedRange(), o) == onoff_text("Unlimited Range"@, !o.unlimited_range_enabled)
            &&& spec_press_onoff(ButtonOnOff::Echo(0), o).1.echo_enabled == !o.echo_enabled
            &&& spec_press_onoff(ButtonOnOff::Echo(0), o).1.greens_enabled == o.greens_enabled
            &&& spec_press_onoff(ButtonOnOff::Echo(0), o).1.puddles_enabled == o.puddles_enabled
            &&& spec_press_onoff(ButtonOnOff::Echo(0), o).1.hints_enabled == o.hints_enabled
            &&& spec_press_onoff(ButtonOnOff::Echo(0), o).1.unlimited_range_enabled == o.unlimited_range_enabled
            &&& spec_press_onoff(ButtonOnOff::Echo(0), o).1.continuous == o.continuous
        }),
{
}

} // verus!

//! The fight's phases, the menu states and how one leads to the next.

use vstd::prelude::*;

verus! {

/// Every phase of the fight, in fight order, and `Nothing` outside a fight.
#[derive(Clone, Copy, PartialEq, Eq, Structural, Debug, Hash)]
pub enum GameState {
    Nothing,
    PurificationOne,
    Jormag,
    Primordus,
    Kralkatorrik,
    PurificationTwo,
    Mordremoth,
    Zhaitan,
    PurificationThree,
    SooWonOne,
    PurificationFour,
    SooWonTwo,
}

/// Which menu, if any, covers the fight.
#[derive(Clone, Copy, PartialEq, Eq, Structural, Debug, Hash)]
pub enum MenuState {
    Loading,
    StartMenu,
    Failure,
    Success,
    Paused,
    PausedShowHint,
    Unpaused,
}

/// The position of a phase in the whole fight: 0 for the first purification
/// up to 10 for the second Soo-Won phase; -1 for `Nothing`.
pub open spec fn fight_order(s: GameState) -> int {
    match s {
        GameState::Nothing => -1,
        GameState::PurificationOne => 0,
        GameState::Jormag => 1,
        GameState::Primordus => 2,
        GameState::Kralkatorrik => 3,
        GameState::PurificationTwo => 4,
        GameState::Mordremoth => 5,
        GameState::Zhaitan => 6,
        GameState::PurificationThree => 7,
        GameState::SooWonOne => 8,
        GameState::PurificationFour => 9,
        GameState::SooWonTwo => 10,
    }
}

/// The phase that follows `s` in the whole fight; the last phase and
/// `Nothing` have none and map to themselves.
pub open spec fn spec_next_game_state(s: GameState) -> GameState {
    match s {
        GameState::PurificationOne => GameState::Jormag,
        GameState::Jormag => GameState::Primordus,
        GameState::Primordus => GameState::Kralkatorrik,
        GameState::Kralkatorrik => GameState::PurificationTwo,
        GameState::PurificationTwo => GameState::Mordremoth,
        GameState::Mordremoth => GameState::Zhaitan,
        GameState::Zhaitan => GameState::PurificationThree,
        GameState::PurificationThree => GameState::SooWonOne,
        GameState::SooWonOne => GameState::PurificationFour,
        GameState::PurificationFour => GameState::SooWonTwo,
        other => other,
    }
}

/// Phases where the players fight a dragon with a health bar.
pub open spec fn is_boss_phase(s: GameState) -> bool {
    match s {
        GameState::Jormag | GameState::Primordus | GameState::Kralkatorrik | GameState::Mordremoth
        | GameState::Zhaitan | GameState::SooWonOne | GameState::SooWonTwo => true,
        _ => false,
    }
}

/// Phases where the players push the orb through its targets.
pub open spec fn is_orb_push_phase(s: GameState) -> bool {
    match s {
        GameState::PurificationOne | GameState::PurificationTwo | GameState::PurificationThree => true,
        _ => false,
    }
}

/// The phase after `game_state` in the whole fight.
pub fn next_game_state(game_state: GameState) -> (next: GameState)
    ensures
        next == spec_next_game_state(game_state),
{
    match game_state {
        GameState::PurificationOne => GameState::Jormag,
        GameState::Jormag => GameState::Primordus,
        GameState::Primordus => GameState::Kralkatorrik,
        GameState::Kralkatorrik => GameState::PurificationTwo,
        GameState::PurificationTwo => GameState::Mordremoth,
        GameState::Mordremoth => GameState::Zhaitan,
        GameState::Zhaitan => GameState::PurificationThree,
        GameState::PurificationThree => GameState::SooWonOne,
        GameState::SooWonOne => GameState::PurificationFour,
        GameState::PurificationFour => GameState::SooWonTwo,
        other => other,
    }
}

/// Whether the systems every phase shares run this frame: the fight is
/// unpaused and some phase is on.
pub fn run_if_phase_update(menu_state: MenuState, game_state: GameState) -> (run: bool)
    ensures
        run == (menu_state == MenuState::Unpaused && game_state != GameState::Nothing),
{
    if menu_state != MenuState::Unpaused {
        return false;
    }
    match game_state {
        GameState::Nothing => false,
        _ => true,
    }
}

/// Whether the boss-phase systems run this frame.
pub fn run_if_boss_phase_update(menu_state: MenuState, game_state: GameState) -> (run: bool)
    ensures
        run == (menu_state == MenuState::Unpaused && is_boss_phase(game_state)),
{
    if menu_state != MenuState::Unpaused {
        return false;
    }
    match game_state {
        GameState::Nothing
        | GameState::PurificationOne
        | GameState::PurificationTwo
        | GameState::PurificationThree
        | GameState::PurificationFour => false,
        GameState::Jormag
        | GameState::Primordus
        | GameState::Kralkatorrik
        | GameState::Mordremoth
        | GameState::Zhaitan
        | GameState::SooWonOne
        | GameState::SooWonTwo => true,
    }
}

/// Whether the orb-pushing systems run this frame.
pub fn run_if_purification_phase_update(menu_state: MenuState, game_state: GameState) -> (run: bool)
    ensures
        run == (menu_state == MenuState::Unpaused && is_orb_push_phase(game_state)),
{
    if menu_state != MenuState::Unpaused {
        return false;
    }
    match game_state {
        GameState::PurificationOne | GameState::PurificationTwo | GameState::PurificationThree => true,
        _ => false,
    }
}

/// Escape pauses a running fight and resumes a paused one; elsewhere it
/// does nothing.
pub open spec fn spec_escape_pressed(menu_state: MenuState) -> Option<MenuState> {
    match menu_state {
        MenuState::Paused | MenuState::PausedShowHint => Some(MenuState::Unpaused),
        MenuState::Unpaused => Some(MenuState::Paused),
        _ => None,
    }
}

/// The menu state that the escape key leads to, if it leads anywhere:
/// it pauses a running fight and resumes a paused one.
pub fn escape_pressed(menu_state: MenuState) -> (next: Option<MenuState>)
    ensures
        next == spec_escape_pressed(menu_state),
{
    match menu_state {
        MenuState::Paused | MenuState::PausedShowHint => Some(MenuState::Unpaused),
        MenuState::Unpaused => Some(MenuState::Paused),
        MenuState::Loading | MenuState::StartMenu | MenuState::Failure | MenuState::Success => None,
    }
}

/// What happens once a phase has been won.
#[derive(Clone, Copy, PartialEq, Eq, Structural, Debug)]
pub enum PhaseCleared {
    /// The whole fight goes on with this phase.
    Advance(GameState),
    /// The success screen is shown.
    ShowSuccess,
}

/// The boss of the phase is gone: in the whole fight the next phase starts,
/// unless this was the last; otherwise the success screen shows.
pub fn boss_defeated(continuous: bool, game_state: GameState) -> (r: PhaseCleared)
    ensures
        r == (if continuous && game_state != GameState::SooWonTwo {
            PhaseCleared::Advance(spec_next_game_state(game_state))
        } else {
            PhaseCleared::ShowSuccess
        }),
{
    if continuous && game_state != GameState::SooWonTwo {
        PhaseCleared::Advance(next_game_state(game_state))
    } else {
        PhaseCleared::ShowSuccess
    }
}

/// The orb went through its last target: in the whole fight the next phase
/// starts; otherwise the success screen shows.
pub fn orb_targets_cleared(continuous: bool, game_state: GameState) -> (r: PhaseCleared)
    ensures
        r == (if continuous {
            PhaseCleared::Advance(spec_next_game_state(game_state))
        } else {
            PhaseCleared::ShowSuccess
        }),
{
    if continuous {
        PhaseCleared::Advance(next_game_state(game_state))
    } else {
        PhaseCleared::ShowSuccess
    }
}

/// The phase reached from `s` after `n` steps of the whole fight.
pub open spec fn advance_n(s: GameState, n: nat) -> GameState
    decreases n,
{
    if n == 0 {
        s
    } else {
        spec_next_game_state(advance_n(s, (n - 1) as nat))
    }
}

/// Each phase of the fight but the last leads to the one right after it in
/// fight order.
pub proof fn lemma_next_phase_is_next_in_order(s: GameState)
    requires
        s != GameState::Nothing,
        s != GameState::SooWonTwo,
    ensures
        fight_order(spec_next_game_state(s)) == fight_order(s) + 1,
{
}

/// Outside the fight and at its last phase there is nowhere further to go.
pub proof fn lemma_next_phase_fixed_points()
    ensures
        spec_next_game_state(GameState::Nothing) == GameState::Nothing,
        spec_next_game_state(GameState::SooWonTwo) == GameState::SooWonTwo,
{
}

/// Starting the whole fight and advancing `n` times reaches the phase at
/// position `n` of the fight, for every `n` up to the last phase; the phase
/// at a position is unique, so every phase is met exactly once.
pub proof fn lemma_whole_fight_visits_every_phase(n: nat)
    requires
        n <= 10,
    ensures
        fight_order(advance_n(GameState::PurificationOne, n)) == n,
        forall|s: GameState| fight_order(s) == n ==> s == advance_n(GameState::PurificationOne, n),
    decreases n,
{
    if n > 0 {
        lemma_whole_fight_visits_every_phase((n - 1) as nat);
        let prev = advance_n(GameState::PurificationOne, (n - 1) as nat);
        lemma_next_phase_is_next_in_order(prev);
    }
}

/// The phase systems split the fight: boss systems and orb systems never
/// run together, and either one runs only when the shared systems run.
pub proof fn lemma_phase_sets_partition(menu_state: MenuState, game_state: GameState)
    ensures
        !(is_boss_phase(game_state) && is_orb_push_phase(game_state)),
        (menu_state == MenuState::Unpaused && is_boss_phase(game_state)) ==> (menu_state
            == MenuState::Unpaused && game_state != GameState::Nothing),
        (menu_state == MenuState::Unpaused && is_orb_push_phase(game_state)) ==> (menu_state
            == MenuState::Unpaused && game_state != GameState::Nothing),
        game_state != GameState::Nothing ==> (is_boss_phase(game_state) || is_orb_push_phase(
            game_state,
        ) || game_state == GameState::PurificationFour),
{
}

/// Escape twice gets back to where one started, for a running or a paused
/// fight.
pub proof fn lemma_escape_twice(menu_state: MenuState)
    requires
        menu_state == MenuState::Unpaused || menu_state == MenuState::Paused,
    ensures
        spec_escape_pressed(menu_state) is Some,
        spec_escape_pressed(spec_escape_pressed(menu_state)->0) == Some(menu_state),
{
}

} // verus!

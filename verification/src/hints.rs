//! The hints that pause the fight to explain what comes next.

use vstd::prelude::*;
use crate::state::GameState;
use crate::timer::{Countdown, ticked};

verus! {

pub const HINT_WELCOME: &'static str = "Welcome to The Dragonfruitvoid!\n\nMove with WASD and shoot with left mouse\nbutton. Your skills are 4: Pull, E: Blink,\nV: Dodge, Space: Jump, and\nR: Portal (advanced).";

pub const HINT_INDIVIDUAL_PHASE: &'static str = "Previous phases may have hints\nrelated to this phase";

pub const HINT_ORB_PUSHING: &'static str = "Push the white orb through the green\ntargets with your bullets! Prevent the\ncrabs from reaching the orbs by killing\nthem (also with your bullets). The black\ncircles are THE VOID and will damage you.";

pub const HINT_BOSS: &'static str = "The big red circle is a boss. Pew pew\nit to victory!";

pub const HINT_PUDDLES: &'static str = "Red puddles will follow you for a short\ntime before they drop on the ground and\nbecome a damaging zone. Move quickly to\ndrop them out of the way. Dodge out to\navoid taking too much damage.";

pub const HINT_GREENS: &'static str = "Green circles need to be soaked. Pick one\nof the three to stand in before it\nexplodes.";

pub const HINT_AOES: &'static str = "Orange circles are AoEs. Run away!";

pub const HINT_VOID_LINES: &'static str = "Space is limited in this phase. Watch\nout for the lines of VOID.";

pub const HINT_TIMECASTER: &'static str = "Push the orb to the targets again. Watch\nout, the timecaster is a nasty enemy who\nneeds to be removed or they'll push away\nthe orb.";

pub const HINT_BEES: &'static str = "The orb shoots bees out now, you\nknow how it is with bees.";

pub const HINT_SHOCKWAVES: &'static str = "Shockwaves incoming! These blue waves\nneed to be dodged, jumped over, or blinked\nthrough to prevent massive damage.";

pub const HINT_NOODLES: &'static str = "Noodles attack the area near them.\nKill them before they kill you!";

pub const HINT_SALTSPRAY: &'static str = "Push the orb to the targets. There is\nnow a big saltspray dragon. Do what you do\nto dragons, you heartless monster.";

pub const HINT_SOOWON_ONE: &'static str = "Get ready for everything from every\nphase all at once!";

pub const HINT_DARK_ORB: &'static str = "Time to get revenge on the orb by\nkilling it! Beware, your bullets still push.";

pub const HINT_SOOWON_TWO: &'static str = "Everything from every phase all at\nonce part two: Electric Boogaloo. Don't\nlet the Obliterator or Goliath hit you!";

/// A hint and when it shows, in tenths of a second after the phase starts.
#[derive(Clone, Copy, PartialEq, Eq, Debug)]
pub struct HintTiming {
    pub start_ds: u32,
    pub hint: &'static str,
}

impl View for HintTiming {
    type V = (u32, Seq<char>);

    open spec fn view(&self) -> (u32, Seq<char>) {
        (self.start_ds, self.hint@)
    }
}

/// The views of a list of hints.
pub open spec fn hint_views(hints: Seq<HintTiming>) -> Seq<(u32, Seq<char>)> {
    hints.map_values(|h: HintTiming| h@)
}

/// The hints of each phase, in the order they show.
pub open spec fn spec_phase_hints(phase: GameState) -> Seq<(u32, Seq<char>)> {
    match phase {
        GameState::PurificationOne => seq![(10u32, HINT_ORB_PUSHING@)],
        GameState::Jormag => seq![(10u32, HINT_BOSS@), (55u32, HINT_PUDDLES@), (155u32, HINT_GREENS@)],
        GameState::Primordus => seq![(135u32, HINT_AOES@)],
        GameState::Kralkatorrik => seq![(55u32, HINT_VOID_LINES@)],
        GameState::PurificationTwo => seq![(10u32, HINT_TIMECASTER@), (40u32, HINT_BEES@)],
        GameState::Mordremoth => seq![(210u32, HINT_SHOCKWAVES@)],
        GameState::Zhaitan => seq![(55u32, HINT_NOODLES@)],
        GameState::PurificationThree => seq![(10u32, HINT_SALTSPRAY@)],
        GameState::SooWonOne => seq![(10u32, HINT_SOOWON_ONE@)],
        GameState::PurificationFour => seq![(10u32, HINT_DARK_ORB@)],
        GameState::SooWonTwo => seq![(10u32, HINT_SOOWON_TWO@)],
        GameState::Nothing => seq![],
    }
}

/// The welcome hint, shown first.
pub open spec fn spec_hints_all_phases() -> Seq<(u32, Seq<char>)> {
    seq![(0u32, HINT_WELCOME@)]
}

/// The hints of a phase, in the order they show.
pub fn phase_hints(phase: &GameState) -> (hints: Vec<HintTiming>)
    ensures
        hint_views(hints@) == spec_phase_hints(*phase),
{
    let hints = match phase {
        GameState::PurificationOne => vec![HintTiming { start_ds: 10, hint: HINT_ORB_PUSHING }],
        GameState::Jormag => vec![HintTiming { start_ds: 10, hint: HINT_BOSS }, HintTiming { start_ds: 55, hint: HINT_PUDDLES }, HintTiming { start_ds: 155, hint: HINT_GREENS }],
        GameState::Primordus => vec![HintTiming { start_ds: 135, hint: HINT_AOES }],
        GameState::Kralkatorrik => vec![HintTiming { start_ds: 55, hint: HINT_VOID_LINES }],
        GameState::PurificationTwo => vec![HintTiming { start_ds: 10, hint: HINT_TIMECASTER }, HintTiming { start_ds: 40, hint: HINT_BEES }],
        GameState::Mordremoth => vec![HintTiming { start_ds: 210, hint: HINT_SHOCKWAVES }],
        GameState::Zhaitan => vec![HintTiming { start_ds: 55, hint: HINT_NOODLES }],
        GameState::PurificationThree => vec![HintTiming { start_ds: 10, hint: HINT_SALTSPRAY }],
        GameState::SooWonOne => vec![HintTiming { start_ds: 10, hint: HINT_SOOWON_ONE }],
        GameState::PurificationFour => vec![HintTiming { start_ds: 10, hint: HINT_DARK_ORB }],
        GameState::SooWonTwo => vec![HintTiming { start_ds: 10, hint: HINT_SOOWON_TWO }],
        GameState::Nothing => vec![],
    };
    assert(hint_views(hints@) =~= spec_phase_hints(*phase));
    hints
}

/// The welcome hint that opens a session.
pub fn hints_all_phases() -> (hints: Vec<HintTiming>)
    ensures
        hint_views(hints@) == spec_hints_all_phases(),
{
    let hints = vec![HintTiming { start_ds: 0, hint: HINT_WELCOME }];
    assert(hint_views(hints@) =~= spec_hints_all_phases());
    hints
}

/// The reminder, for a phase practised on its own, that earlier phases
/// may have explained it.
pub fn hint_individual_phase() -> (hint: HintTiming)
    ensures
        hint@ == (1u32, HINT_INDIVIDUAL_PHASE@),
{
    HintTiming { start_ds: 1, hint: HINT_INDIVIDUAL_PHASE }
}

/// The hints scheduled when a phase starts: none when hints are off;
/// otherwise the welcome hint (for a single phase, or the first phase of
/// the whole fight), the reminder (for a single phase past the first boss),
/// then the phase's own hints.
pub open spec fn spec_setup_hints(hints_enabled: bool, continuous: bool, state: GameState) -> Seq<(u32, Seq<char>)> {
    if !hints_enabled {
        seq![]
    } else {
        let opening = if !continuous {
            if state == GameState::PurificationOne || state == GameState::Jormag {
                spec_hints_all_phases()
            } else {
                spec_hints_all_phases().push((1u32, HINT_INDIVIDUAL_PHASE@))
            }
        } else if state == GameState::PurificationOne {
            spec_hints_all_phases()
        } else {
            seq![]
        };
        opening + spec_phase_hints(state)
    }
}

/// The hints to schedule when a phase starts.
pub fn setup_hints(hints_enabled: bool, continuous: bool, state: &GameState) -> (hints: Vec<HintTiming>)
    ensures
        hint_views(hints@) == spec_setup_hints(hints_enabled, continuous, *state),
{
    let mut hints: Vec<HintTiming> = Vec::new();
    if !hints_enabled {
        assert(hint_views(hints@) =~= spec_setup_hints(hints_enabled, continuous, *state));
        return hints;
    }
    if !continuous {
        let mut all = hints_all_phases();
        hints.append(&mut all);
        match state {
            GameState::PurificationOne | GameState::Jormag => {},
            _ => {
                hints.push(hint_individual_phase());
            },
        }
    } else {
        if *state == GameState::PurificationOne {
            let mut all = hints_all_phases();
            hints.append(&mut all);
        }
    }
    let ghost opening = hints@;
    let mut own = phase_hints(state);
    hints.append(&mut own);
    assert(hint_views(hints@) =~= hint_views(opening) + spec_phase_hints(*state));
    assert(hint_views(hints@) =~= spec_setup_hints(hints_enabled, continuous, *state));
    hints
}

/// Ticks the countdowns of the scheduled hints in order until one is due,
/// and returns it; those after it wait for the next frame.
pub fn next_due_hint(starts: &mut Vec<Countdown>, delta_ns: u64) -> (due: Option<usize>)
    requires
        forall|i: int| 0 <= i < old(starts).len() ==> (#[trigger] old(starts)@[i]).wf(),
    ensures
        final(starts).len() == old(starts).len(),
        forall|i: int| 0 <= i < final(starts).len() ==> (#[trigger] final(starts)@[i]).wf(),
        match due {
            Some(d) => {
                &&& d < old(starts).len()
                &&& final(starts)@[d as int].finished
                &&& forall|i: int| 0 <= i <= d ==> final(starts)@[i] == ticked(old(starts)@[i], delta_ns as int)
                &&& forall|i: int| 0 <= i < d ==> !(#[trigger] final(starts)@[i]).finished
                &&& forall|i: int| d < i < old(starts).len() ==> final(starts)@[i] == old(starts)@[i]
            },
            None => forall|i: int|
                0 <= i < old(starts).len() ==> final(starts)@[i] == ticked(old(starts)@[i], delta_ns as int)
                    && !(#[trigger] final(starts)@[i]).finished,
        },
{
    let n = starts.len();
    let mut k: usize = 0;
    while k < n
        invariant
            n == starts.len(),
            n == old(starts).len(),
            k <= n,
            forall|i: int| 0 <= i < n ==> (#[trigger] starts@[i]).wf(),
            forall|i: int| 0 <= i < k ==> starts@[i] == ticked(old(starts)@[i], delta_ns as int)
                && !(#[trigger] starts@[i]).finished,
            forall|i: int| k <= i < n ==> starts@[i] == old(starts)@[i],
        decreases n - k,
    {
        let mut c = starts[k];
        c.tick(delta_ns);
        starts.set(k, c);
        if c.finished() {
            return Some(k);
        }
        k = k + 1;
    }
    None
}

/// The hints of a phase start in time order, so they show in the order they
/// are listed, whatever the options.
pub proof fn lemma_hints_in_time_order(hints_enabled: bool, continuous: bool, state: GameState)
    ensures
        forall|i: int, j: int|
            0 <= i < j < spec_setup_hints(hints_enabled, continuous, state).len() ==> (
            #[trigger] spec_setup_hints(hints_enabled, continuous, state)[i]).0
                <= (#[trigger] spec_setup_hints(hints_enabled, continuous, state)[j]).0,
{
    let s = spec_setup_hints(hints_enabled, continuous, state);
    assert(forall|i: int| 0 <= i < s.len() ==> (#[trigger] s[i]).0 <= 215);
    assert forall|i: int, j: int| 0 <= i < j < s.len() implies (#[trigger] s[i]).0 <= (#[trigger] s[j]).0 by {
        assert(s[i].0 <= s[j].0);
    }
}

/// With hints off, nothing interrupts the fight.
pub proof fn lemma_no_hints_when_disabled(continuous: bool, state: GameState)
    ensures
        spec_setup_hints(false, continuous, state).len() == 0,
{
}

/// The welcome hint opens every single-phase session and the whole fight,
/// and only those.
pub proof fn lemma_welcome_opens_sessions(continuous: bool, state: GameState)
    requires
        state != GameState::Nothing,
    ensures
        (spec_setup_hints(true, continuous, state).len() > 0 && spec_setup_hints(true, continuous, state)[0] == (0u32, HINT_WELCOME@))
            <==> (!continuous || state == GameState::PurificationOne),
{
    let s = spec_setup_hints(true, continuous, state);
    if continuous && state != GameState::PurificationOne {
        assert(s =~= spec_phase_hints(state));
        assert(s.len() > 0);
        assert(s[0].0 != 0u32);
    }
}

proof fn lemma_phase_hint_texts_differ()
    ensures
        HINT_ORB_PUSHING@.len() == 198,
        HINT_BOSS@.len() == 52,
        HINT_PUDDLES@.len() == 188,
        HINT_GREENS@.len() == 86,
        HINT_AOES@.len() == 34,
        HINT_VOID_LINES@.len() == 64,
        HINT_TIMECASTER@.len() == 131,
        HINT_BEES@.len() == 58,
        HINT_SHOCKWAVES@.len() == 115,
        HINT_NOODLES@.len() == 66,
        HINT_SALTSPRAY@.len() == 115,
        HINT_SOOWON_ONE@.len() == 54,
        HINT_DARK_ORB@.len() == 78,
        HINT_SOOWON_TWO@.len() == 114,
        HINT_SHOCKWAVES@[0] != HINT_SALTSPRAY@[0],
{
    reveal_strlit("Push the white orb through the green\ntargets with your bullets! Prevent the\ncrabs from reaching the orbs by killing\nthem (also with your bullets). The black\ncircles are THE VOID and will damage you.");
    reveal_strlit("The big red circle is a boss. Pew pew\nit to victory!");
    reveal_strlit("Red puddles will follow you for a short\ntime before they drop on the ground and\nbecome a damaging zone. Move quickly to\ndrop them out of the way. Dodge out to\navoid taking too much damage.");
    reveal_strlit("Green circles need to be soaked. Pick one\nof the three to stand in before it\nexplodes.");
    reveal_strlit("Orange circles are AoEs. Run away!");
    reveal_strlit("Space is limited in this phase. Watch\nout for the lines of VOID.");
    reveal_strlit("Push the orb to the targets again. Watch\nout, the timecaster is a nasty enemy who\nneeds to be removed or they'll push away\nthe orb.");
    reveal_strlit("The orb shoots bees out now, you\nknow how it is with bees.");
    reveal_strlit("Shockwaves incoming! These blue waves\nneed to be dodged, jumped over, or blinked\nthrough to prevent massive damage.");
    reveal_strlit("Noodles attack the area near them.\nKill them before they kill you!");
    reveal_strlit("Push the orb to the targets. There is\nnow a big saltspray dragon. Do what you do\nto dragons, you heartless monster.");
    reveal_strlit("Get ready for everything from every\nphase all at once!");
    reveal_strlit("Time to get revenge on the orb by\nkilling it! Beware, your bullets still push.");
    reveal_strlit("Everything from every phase all at\nonce part two: Electric Boogaloo. Don't\nlet the Obliterator or Goliath hit you!");
}

/// No hint text is shown in two phases, nor twice in one phase: each
/// phase explains its own mechanics. In particular the shockwave warning
/// belongs to the Mordremoth phase alone and the noodle warning to the
/// Zhaitan phase alone.
pub proof fn lemma_each_phase_has_its_own_hints(s1: GameState, i: int, s2: GameState, j: int)
    requires
        0 <= i < spec_phase_hints(s1).len(),
        0 <= j < spec_phase_hints(s2).len(),
    ensures
        spec_phase_hints(s1)[i].1 == spec_phase_hints(s2)[j].1 ==> s1 == s2 && i == j,
        spec_phase_hints(s1)[i].1 == HINT_SHOCKWAVES@ <==> s1 == GameState::Mordremoth,
        spec_phase_hints(s1)[i].1 == HINT_NOODLES@ <==> s1 == GameState::Zhaitan,
{
    lemma_phase_hint_texts_differ();
}

} // verus!

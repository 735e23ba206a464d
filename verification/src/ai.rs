//! What the computer-controlled squad members decide, apart from geometry.

use vstd::prelude::*;
use crate::state::GameState;
use crate::script::StackGreen;
use crate::timer::NANOS_PER_SEC;

verus! {

/// The squad role of a computer-controlled player.
#[derive(Clone, Copy, PartialEq, Eq, Structural, Debug)]
pub enum AiRole {
    Virt1,
    Virt2,
    Herald1,
    Herald2,
    Ham1,
    Ham2,
    Dps1,
    Dps2,
    Dps3,
    Dps4,
}

/// The profession name shown for a role.
pub open spec fn role_name(role: AiRole) -> Seq<char> {
    match role {
        AiRole::Virt1 | AiRole::Virt2 => "Virtuoso"@,
        AiRole::Herald1 | AiRole::Herald2 => "Herald"@,
        AiRole::Ham1 | AiRole::Ham2 => "HAM"@,
        _ => "DPS"@,
    }
}

/// Roles that may blink out of danger.
pub open spec fn spec_is_blink_enabled(role: AiRole) -> bool {
    match role {
        AiRole::Virt1 | AiRole::Virt2 | AiRole::Ham1 | AiRole::Ham2 => true,
        _ => false,
    }
}

/// The team that pushes the orb: team 0 takes the even targets, team 1 the
/// odd ones, team 2 pushes none.
pub open spec fn spec_push_team(role: AiRole) -> i32 {
    match role {
        AiRole::Virt1 | AiRole::Herald1 => 0,
        AiRole::Virt2 | AiRole::Herald2 => 1,
        _ => 2,
    }
}

/// Which of the three green circles a role soaks in a phase, if any.
pub open spec fn spec_green_team(game_state: GameState, role: AiRole) -> Option<usize> {
    match game_state {
        GameState::SooWonOne | GameState::SooWonTwo => match role {
            AiRole::Dps3 | AiRole::Dps4 => Some(2usize),
            AiRole::Virt1 | AiRole::Virt2 => Some(0usize),
            AiRole::Herald1 | AiRole::Herald2 => Some(1usize),
            _ => None,
        },
        _ => match role {
            AiRole::Virt1 | AiRole::Virt2 => Some(0usize),
            AiRole::Herald1 | AiRole::Herald2 => Some(1usize),
            AiRole::Ham1 | AiRole::Ham2 => Some(2usize),
            _ => None,
        },
    }
}

/// The position of a role in the squad, 0 to 9.
pub open spec fn spec_role_index(role: AiRole) -> i32 {
    match role {
        AiRole::Virt1 => 0,
        AiRole::Virt2 => 1,
        AiRole::Herald1 => 2,
        AiRole::Herald2 => 3,
        AiRole::Ham1 => 4,
        AiRole::Ham2 => 5,
        AiRole::Dps1 => 6,
        AiRole::Dps2 => 7,
        AiRole::Dps3 => 8,
        AiRole::Dps4 => 9,
    }
}

impl AiRole {
    /// The profession name shown for the role.
    pub fn to_string(&self) -> (name: String)
        ensures
            name@ == role_name(*self),
    {
        match self {
            AiRole::Virt1 | AiRole::Virt2 => String::from_str("Virtuoso"),
            AiRole::Herald1 | AiRole::Herald2 => String::from_str("Herald"),
            AiRole::Ham1 | AiRole::Ham2 => String::from_str("HAM"),
            AiRole::Dps1 | AiRole::Dps2 | AiRole::Dps3 | AiRole::Dps4 => String::from_str("DPS"),
        }
    }

    /// Whether the role may blink out of danger.
    pub fn is_blink_enabled(&self) -> (b: bool)
        ensures
            b == spec_is_blink_enabled(*self),
    {
        match self {
            AiRole::Virt1 | AiRole::Virt2 | AiRole::Ham1 | AiRole::Ham2 => true,
            AiRole::Herald1
            | AiRole::Herald2
            | AiRole::Dps1
            | AiRole::Dps2
            | AiRole::Dps3
            | AiRole::Dps4 => false,
        }
    }

    /// The position of the role in the squad, 0 to 9.
    pub fn index(&self) -> (i: i32)
        ensures
            i == spec_role_index(*self),
            0 <= i < 10,
    {
        match self {
            AiRole::Virt1 => 0,
            AiRole::Virt2 => 1,
            AiRole::Herald1 => 2,
            AiRole::Herald2 => 3,
            AiRole::Ham1 => 4,
            AiRole::Ham2 => 5,
            AiRole::Dps1 => 6,
            AiRole::Dps2 => 7,
            AiRole::Dps3 => 8,
            AiRole::Dps4 => 9,
        }
    }
}

/// The orb-pushing team of a role.
pub fn get_push_team(role: &AiRole) -> (team: i32)
    ensures
        team == spec_push_team(*role),
{
    match role {
        AiRole::Virt1 | AiRole::Herald1 => 0,
        AiRole::Virt2 | AiRole::Herald2 => 1,
        AiRole::Ham1 | AiRole::Ham2 | AiRole::Dps1 | AiRole::Dps2 | AiRole::Dps3 | AiRole::Dps4 => 2,
    }
}

/// The green circle, 0 to 2, that a role goes to soak in a phase; `None` for
/// roles that leave the greens to others.
pub fn green_team(game_state: &GameState, role: &AiRole) -> (team: Option<usize>)
    ensures
        team == spec_green_team(*game_state, *role),
{
    match game_state {
        GameState::SooWonOne | GameState::SooWonTwo => match role {
            AiRole::Dps1 | AiRole::Dps2 => None,
            AiRole::Dps3 | AiRole::Dps4 => Some(2),
            AiRole::Virt1 | AiRole::Virt2 => Some(0),
            AiRole::Herald1 | AiRole::Herald2 => Some(1),
            AiRole::Ham1 | AiRole::Ham2 => None,
        },
        _ => match role {
            AiRole::Dps1 | AiRole::Dps2 | AiRole::Dps3 | AiRole::Dps4 => None,
            AiRole::Virt1 | AiRole::Virt2 => Some(0),
            AiRole::Herald1 | AiRole::Herald2 => Some(1),
            AiRole::Ham1 | AiRole::Ham2 => Some(2),
        },
    }
}

/// Whether a role carries the red puddles out of the way (the HAMs do).
pub fn handles_puddles(role: &AiRole) -> (b: bool)
    ensures
        b == (*role == AiRole::Ham1 || *role == AiRole::Ham2),
{
    match role {
        AiRole::Ham1 | AiRole::Ham2 => true,
        _ => false,
    }
}

/// How a computer player covers the way to where it wants to be.
#[derive(Clone, Copy, PartialEq, Eq, Structural, Debug)]
pub enum MobilitySkill {
    Walk,
    Dodge,
    Blink,
}

/// A move that is urgent and far dodges if dodge is ready, else blinks if
/// the role may blink and blink is ready; any other move walks.
pub fn choose_mobility(urgent_and_far: bool, dodge_ready: bool, blink_ready: bool, role: &AiRole) -> (skill: MobilitySkill)
    ensures
        skill == (if urgent_and_far && dodge_ready {
            MobilitySkill::Dodge
        } else if urgent_and_far && blink_ready && spec_is_blink_enabled(*role) {
            MobilitySkill::Blink
        } else {
            MobilitySkill::Walk
        }),
{
    if urgent_and_far {
        if dodge_ready {
            return MobilitySkill::Dodge;
        } else if blink_ready && role.is_blink_enabled() {
            return MobilitySkill::Blink;
        }
    }
    MobilitySkill::Walk
}

/// The remainder of `t` divided by two as Rust's `%` computes it on signed
/// integers: it takes the sign of `t`.
pub open spec fn rem2(t: int) -> int {
    if t >= 0 {
        t % 2
    } else {
        -((-t) % 2)
    }
}

/// The largest target index a player ever goes for.
pub const TARGET_INDEX_CAP: i32 = 9999;

/// A target that the team may push the orb to: not yet passed, of the
/// team's parity, and not above the cap.
pub open spec fn eligible_target(t: i32, current: i32, team: i32) -> bool {
    t >= current && rem2(t as int) == team && t <= TARGET_INDEX_CAP
}

/// Where one player pushes the orb, as indices into the list of targets.
#[derive(Clone, Copy, PartialEq, Eq, Structural, Debug)]
pub struct OrbAssignment {
    /// The team's next target: the lowest eligible index, the last such in
    /// the list.
    pub target: Option<usize>,
    /// The target the orb has to reach now: the last one numbered as the
    /// current target.
    pub dest: Option<usize>,
    /// Whether the team's next target is the current one.
    pub is_active: bool,
}

/// Chooses, among numbered orb targets, the one this player's team pushes
/// toward and the one the orb has to reach now.
pub fn assign_orb_targets(targets: &Vec<i32>, current: i32, team: i32) -> (a: OrbAssignment)
    ensures
        match a.dest {
            Some(i) => i < targets.len() && targets@[i as int] == current && forall|j: int|
                i < j < targets.len() ==> targets@[j] != current,
            None => forall|j: int| 0 <= j < targets.len() ==> targets@[j] != current,
        },
        match a.target {
            Some(i) => {
                &&& i < targets.len()
                &&& eligible_target(targets@[i as int], current, team)
                &&& forall|j: int|
                    0 <= j < targets.len() && eligible_target(#[trigger] targets@[j], current, team)
                        ==> targets@[i as int] <= targets@[j]
                &&& forall|j: int|
                    i < j < targets.len() && eligible_target(#[trigger] targets@[j], current, team)
                        ==> targets@[i as int] < targets@[j]
            },
            None => forall|j: int|
                0 <= j < targets.len() ==> !eligible_target(#[trigger] targets@[j], current, team),
        },
        a.is_active == (match a.target {
            Some(i) => targets@[i as int] == current,
            None => current == TARGET_INDEX_CAP,
        }),
{
    let mut target: Option<usize> = None;
    let mut dest: Option<usize> = None;
    let mut orb_index: i32 = TARGET_INDEX_CAP;
    let n = targets.len();
    let mut k: usize = 0;
    while k < n
        invariant
            n == targets.len(),
            k <= n,
            match dest {
                Some(i) => i < k && targets@[i as int] == current && forall|j: int|
                    i < j < k ==> targets@[j] != current,
                None => forall|j: int| 0 <= j < k ==> targets@[j] != current,
            },
            match target {
                Some(i) => {
                    &&& i < k
                    &&& orb_index == targets@[i as int]
                    &&& eligible_target(targets@[i as int], current, team)
                    &&& forall|j: int|
                        0 <= j < k && eligible_target(#[trigger] targets@[j], current, team)
                            ==> targets@[i as int] <= targets@[j]
                    &&& forall|j: int|
                        i < j < k && eligible_target(#[trigger] targets@[j], current, team)
                            ==> targets@[i as int] < targets@[j]
                },
                None => {
                    &&& orb_index == TARGET_INDEX_CAP
                    &&& forall|j: int|
                        0 <= j < k ==> !eligible_target(#[trigger] targets@[j], current, team)
                },
            },
        decreases n - k,
    {
        let t = targets[k];
        if t < current {
            k = k + 1;
            continue;
        }
        if t == current {
            dest = Some(k);
        }
        let wide: i64 = t as i64;
        let parity: i64 = if wide >= 0 { wide % 2 } else { -((-wide) % 2) };
        if parity != team as i64 {
            assert(!eligible_target(targets@[k as int], current, team));
            k = k + 1;
            continue;
        }
        if orb_index < t {
            assert(!eligible_target(targets@[k as int], current, team) || targets@[k as int] > orb_index);
            k = k + 1;
            continue;
        }
        target = Some(k);
        orb_index = t;
        k = k + 1;
    }
    OrbAssignment { target, dest, is_active: orb_index == current }
}

/// A green worth walking to: it shows within three seconds and has not
/// detonated yet.
pub open spec fn green_worth_soaking(g: StackGreen) -> bool {
    g.visibility_start.duration_ns - g.visibility_start.elapsed_ns <= 3 * NANOS_PER_SEC
        && !g.detonation.finished
}

/// The first green, in the given order, that a soaker should head for.
pub fn first_green_to_soak(greens: &Vec<StackGreen>) -> (g: Option<usize>)
    requires
        forall|i: int| 0 <= i < greens.len() ==> (#[trigger] greens@[i]).visibility_start.wf(),
    ensures
        match g {
            Some(i) => i < greens.len() && green_worth_soaking(greens@[i as int]) && forall|j: int|
                0 <= j < i ==> !green_worth_soaking(#[trigger] greens@[j]),
            None => forall|j: int| 0 <= j < greens.len() ==> !green_worth_soaking(#[trigger] greens@[j]),
        },
{
    let mut k: usize = 0;
    while k < greens.len()
        invariant
            k <= greens.len(),
            forall|i: int| 0 <= i < greens.len() ==> (#[trigger] greens@[i]).visibility_start.wf(),
            forall|j: int| 0 <= j < k ==> !green_worth_soaking(#[trigger] greens@[j]),
        decreases greens.len() - k,
    {
        let green = greens[k];
        if green.visibility_start.remaining_ns() <= 3 * NANOS_PER_SEC && !green.detonation.finished() {
            return Some(k);
        }
        k = k + 1;
    }
    None
}

/// In every phase each of the three green circles has some role to soak it.
pub proof fn lemma_every_green_has_a_soaker(game_state: GameState, k: usize)
    requires
        k < 3,
    ensures
        exists|role: AiRole| spec_green_team(game_state, role) == Some(k),
{
    if k == 0 {
        assert(spec_green_team(game_state, AiRole::Virt1) == Some(0usize));
    } else if k == 1 {
        assert(spec_green_team(game_state, AiRole::Herald1) == Some(1usize));
    } else {
        match game_state {
            GameState::SooWonOne | GameState::SooWonTwo => {
                assert(spec_green_team(game_state, AiRole::Dps3) == Some(2usize));
            },
            _ => {
                assert(spec_green_team(game_state, AiRole::Ham1) == Some(2usize));
            },
        }
    }
}

/// Both orb-pushing teams have members, and the roles of a pair share a team.
pub proof fn lemma_push_teams_are_pairs()
    ensures
        spec_push_team(AiRole::Virt1) == 0 && spec_push_team(AiRole::Herald1) == 0,
        spec_push_team(AiRole::Virt2) == 1 && spec_push_team(AiRole::Herald2) == 1,
        forall|role: AiRole| 0 <= #[trigger] spec_push_team(role) <= 2,
{
}

/// Squad positions are distinct: no two roles share one.
pub proof fn lemma_role_index_injective(a: AiRole, b: AiRole)
    ensures
        spec_role_index(a) == spec_role_index(b) ==> a == b,
{
}

/// The roles come in pairs (two virtuosos, two heralds, two HAMs and two
/// pairs of DPS), and a green is soaked by one pair: both roles of a pair
/// go to the same green, or both stay away, in every phase, and two roles
/// at the same green belong to the same pair. Outside the Soo-Won phases the
/// virtuosos take the first green, the heralds the second and the HAMs the
/// third, and no DPS soaks; in the Soo-Won phases the second DPS pair takes
/// the third green from the HAMs.
pub proof fn lemma_pairs_soak_together(s: GameState)
    ensures
        forall|a: AiRole, b: AiRole|
            spec_role_index(a) / 2 == spec_role_index(b) / 2 ==> #[trigger] spec_green_team(s, a)
                == #[trigger] spec_green_team(s, b),
        forall|a: AiRole, b: AiRole|
            (#[trigger] spec_green_team(s, a)) is Some && spec_green_team(s, a) == #[trigger] spec_green_team(s, b)
                ==> spec_role_index(a) / 2 == spec_role_index(b) / 2,
        !(s == GameState::SooWonOne || s == GameState::SooWonTwo) ==> {
            &&& spec_green_team(s, AiRole::Virt1) == Some(0usize)
            &&& spec_green_team(s, AiRole::Herald1) == Some(1usize)
            &&& spec_green_team(s, AiRole::Ham1) == Some(2usize)
            &&& spec_green_team(s, AiRole::Dps1) is None
            &&& spec_green_team(s, AiRole::Dps3) is None
        },
        (s == GameState::SooWonOne || s == GameState::SooWonTwo) ==> {
            &&& spec_green_team(s, AiRole::Virt1) == Some(0usize)
            &&& spec_green_team(s, AiRole::Herald1) == Some(1usize)
            &&& spec_green_team(s, AiRole::Dps3) == Some(2usize)
            &&& spec_green_team(s, AiRole::Ham1) is None
            &&& spec_green_team(s, AiRole::Dps1) is None
        },
{
}

} // verus!

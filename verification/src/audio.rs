//! Which sound effect plays, from which file and how loud.

use vstd::prelude::*;

verus! {

/// The sound effects of the game.
#[derive(Clone, Copy, PartialEq, Eq, Structural, Debug)]
pub enum Sfx {
    Blink,
    EnemyShoot,
    EnemyShootBig,
    GreenPop,
    Hurt,
    Jump,
    MenuClick,
    OrbHitEdge,
    OrbHitTarget,
    PortalEnter,
    PortalExit,
    Pull,
    RedTarget,
    Roar,
    Shockwave,
    Shoot,
}

/// Who makes a sound.
#[derive(Clone, Copy, PartialEq, Eq, Structural, Debug)]
pub enum SfxSource {
    Player,
    Enemy,
    AiPlayer,
}

/// The file of each sound effect.
pub open spec fn spec_sfx_path(sfx: Sfx) -> Seq<char> {
    match sfx {
        Sfx::Blink => "sounds/blink.ogg"@,
        Sfx::EnemyShoot => "sounds/enemy_shoot.ogg"@,
        Sfx::EnemyShootBig => "sounds/enemy_shoot_big.ogg"@,
        Sfx::GreenPop => "sounds/green_pop.ogg"@,
        Sfx::Hurt => "sounds/hurt.ogg"@,
        Sfx::Jump => "sounds/jump.ogg"@,
        Sfx::OrbHitEdge => "sounds/orb_hit_edge.ogg"@,
        Sfx::OrbHitTarget => "sounds/orb_hit_target.ogg"@,
        Sfx::PortalEnter => "sounds/portal_enter.ogg"@,
        Sfx::PortalExit => "sounds/portal_exit.ogg"@,
        Sfx::Pull => "sounds/pull.ogg"@,
        Sfx::RedTarget => "sounds/red_target.ogg"@,
        Sfx::Roar => "sounds/roar.ogg"@,
        Sfx::Shockwave => "sounds/shockwave.ogg"@,
        Sfx::Shoot => "sounds/shoot.ogg"@,
        Sfx::MenuClick => "sounds/menu_click.ogg"@,
    }
}

/// Loudness by source, in thousandths: the player's own sounds are full
/// volume, enemies' 700, the computer squad's 200.
pub open spec fn source_volume_permille(source: SfxSource) -> u32 {
    match source {
        SfxSource::Player => 1000,
        SfxSource::Enemy => 700,
        SfxSource::AiPlayer => 200,
    }
}

/// The loudness of a sound in thousandths: shots at a fifth, roars at half,
/// menu clicks always at 200.
pub open spec fn spec_volume_permille(sfx: Sfx, source: SfxSource) -> u32 {
    match sfx {
        Sfx::Shoot | Sfx::EnemyShoot => (source_volume_permille(source) / 5) as u32,
        Sfx::MenuClick => 200,
        Sfx::Roar => (source_volume_permille(source) / 2) as u32,
        _ => source_volume_permille(source),
    }
}

/// A sound to play.
pub struct SfxPlayback {
    pub path: &'static str,
    pub volume_permille: u32,
}

/// The file of a sound effect.
pub fn sfx_path(sfx: Sfx) -> (path: &'static str)
    ensures
        path@ == spec_sfx_path(sfx),
{
    match sfx {
        Sfx::Blink => "sounds/blink.ogg",
        Sfx::EnemyShoot => "sounds/enemy_shoot.ogg",
        Sfx::EnemyShootBig => "sounds/enemy_shoot_big.ogg",
        Sfx::GreenPop => "sounds/green_pop.ogg",
        Sfx::Hurt => "sounds/hurt.ogg",
        Sfx::Jump => "sounds/jump.ogg",
        Sfx::OrbHitEdge => "sounds/orb_hit_edge.ogg",
        Sfx::OrbHitTarget => "sounds/orb_hit_target.ogg",
        Sfx::PortalEnter => "sounds/portal_enter.ogg",
        Sfx::PortalExit => "sounds/portal_exit.ogg",
        Sfx::Pull => "sounds/pull.ogg",
        Sfx::RedTarget => "sounds/red_target.ogg",
        Sfx::Roar => "sounds/roar.ogg",
        Sfx::Shockwave => "sounds/shockwave.ogg",
        Sfx::Shoot => "sounds/shoot.ogg",
        Sfx::MenuClick => "sounds/menu_click.ogg",
    }
}

/// The loudness of a sound effect from a source, in thousandths.
pub fn sfx_volume_permille(sfx: Sfx, source: SfxSource) -> (v: u32)
    ensures
        v == spec_volume_permille(sfx, source),
        v <= 1000,
{
    let mut volume: u32 = match source {
        SfxSource::Player => 1000,
        SfxSource::Enemy => 700,
        SfxSource::AiPlayer => 200,
    };
    match sfx {
        Sfx::Shoot | Sfx::EnemyShoot => {
            volume = volume / 5;
        },
        Sfx::MenuClick => {
            volume = 200;
        },
        Sfx::Roar => {
            volume = volume / 2;
        },
        _ => {},
    }
    volume
}

/// What to play for a sound effect: nothing for the computer squad's
/// shots, which would drown everything; otherwise its file and loudness.
pub fn sfx_playback(sfx: Sfx, source: SfxSource) -> (p: Option<SfxPlayback>)
    ensures
        (sfx == Sfx::Shoot && source == SfxSource::AiPlayer) <==> p is None,
        p matches Some(pb) ==> pb.path@ == spec_sfx_path(sfx) && pb.volume_permille
            == spec_volume_permille(sfx, source),
{
    if sfx == Sfx::Shoot && source == SfxSource::AiPlayer {
        return None;
    }
    Some(SfxPlayback { path: sfx_path(sfx), volume_permille: sfx_volume_permille(sfx, source) })
}

/// Whose hurt sound plays when an entity is hit: the squad's for a
/// computer player, the player's for the human, none for anything else.
pub fn hurt_sfx_source(is_ai_player: bool, is_player: bool) -> (s: Option<SfxSource>)
    ensures
        s == (if is_ai_player {
            Some(SfxSource::AiPlayer)
        } else if is_player {
            Some(SfxSource::Player)
        } else {
            None::<SfxSource>
        }),
{
    if is_ai_player {
        Some(SfxSource::AiPlayer)
    } else if is_player {
        Some(SfxSource::Player)
    } else {
        None
    }
}

/// Sounds never get louder than full volume, and the player hears their
/// own sound at least as loud as anyone else's.
pub proof fn lemma_player_hears_own_sounds_loudest(sfx: Sfx, source: SfxSource)
    ensures
        spec_volume_permille(sfx, source) <= 1000,
        spec_volume_permille(sfx, source) <= spec_volume_permille(sfx, SfxSource::Player),
{
}

} // verus!

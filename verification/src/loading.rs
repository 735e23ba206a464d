//! The assets loaded before the start menu shows, and the loading progress.

use vstd::prelude::*;
use crate::audio::{Sfx, spec_sfx_path};

verus! {

/// The font of every text in the game.
pub open spec fn spec_font_path() -> Seq<char> {
    "trebuchet_ms.ttf"@
}

/// The music played during every phase.
pub open spec fn spec_theme_path() -> Seq<char> {
    "sounds/phase_theme.ogg"@
}

/// The images loaded up front, in loading order.
pub open spec fn spec_image_paths() -> Seq<Seq<char>> {
    seq![
        "blink.png"@, "crab.png"@, "dps1.png"@, "dps2.png"@, "dps3.png"@, "dps4.png"@,
        "dps.png"@, "echo.png"@, "goliath.png"@, "ham1.png"@, "ham2.png"@, "ham.png"@,
        "herald1.png"@, "herald2.png"@, "herald.png"@, "map.png"@, "noodle.png"@,
        "portal_exit.png"@, "portal.png"@, "pull.png"@, "reaper.png"@, "ring.png"@,
        "saltspray.png"@, "timecaster.png"@, "virt1.png"@, "virt2.png"@, "virt.png"@,
        "wave.png"@, "wyvern.png"@,
    ]
}

/// The sounds loaded up front, in loading order.
pub open spec fn spec_sound_paths() -> Seq<Seq<char>> {
    seq![
        "sounds/blink.ogg"@, "sounds/enemy_shoot_big.ogg"@, "sounds/enemy_shoot.ogg"@,
        "sounds/green_pop.ogg"@, "sounds/hurt.ogg"@, "sounds/jump.ogg"@,
        "sounds/menu_click.ogg"@, "sounds/orb_hit_edge.ogg"@, "sounds/orb_hit_target.ogg"@,
        "sounds/phase_theme.ogg"@, "sounds/portal_enter.ogg"@, "sounds/portal_exit.ogg"@,
        "sounds/pull.ogg"@, "sounds/red_target.ogg"@, "sounds/roar.ogg"@,
        "sounds/shockwave.ogg"@, "sounds/shoot.ogg"@,
    ]
}

/// The views of a list of paths.
pub open spec fn path_views(paths: Seq<&'static str>) -> Seq<Seq<char>> {
    paths.map_values(|p: &'static str| p@)
}

/// The font of every text in the game.
pub fn font_path() -> (p: &'static str)
    ensures
        p@ == spec_font_path(),
{
    "trebuchet_ms.ttf"
}

/// The music played during every phase.
pub fn theme_path() -> (p: &'static str)
    ensures
        p@ == spec_theme_path(),
{
    "sounds/phase_theme.ogg"
}

/// The images loaded before the start menu.
pub fn preloaded_image_paths() -> (paths: Vec<&'static str>)
    ensures
        path_views(paths@) == spec_image_paths(),
{
    let paths = vec![
        "blink.png", "crab.png", "dps1.png", "dps2.png", "dps3.png", "dps4.png", "dps.png",
        "echo.png", "goliath.png", "ham1.png", "ham2.png", "ham.png", "herald1.png",
        "herald2.png", "herald.png", "map.png", "noodle.png", "portal_exit.png", "portal.png",
        "pull.png", "reaper.png", "ring.png", "saltspray.png", "timecaster.png", "virt1.png",
        "virt2.png", "virt.png", "wave.png", "wyvern.png",
    ];
    assert(path_views(paths@) =~= spec_image_paths());
    paths
}

/// The sounds loaded before the start menu.
pub fn preloaded_sound_paths() -> (paths: Vec<&'static str>)
    ensures
        path_views(paths@) == spec_sound_paths(),
{
    let paths = vec![
        "sounds/blink.ogg", "sounds/enemy_shoot_big.ogg", "sounds/enemy_shoot.ogg",
        "sounds/green_pop.ogg", "sounds/hurt.ogg", "sounds/jump.ogg", "sounds/menu_click.ogg",
        "sounds/orb_hit_edge.ogg", "sounds/orb_hit_target.ogg", "sounds/phase_theme.ogg",
        "sounds/portal_enter.ogg", "sounds/portal_exit.ogg", "sounds/pull.ogg",
        "sounds/red_target.ogg", "sounds/roar.ogg", "sounds/shockwave.ogg", "sounds/shoot.ogg",
    ];
    assert(path_views(paths@) =~= spec_sound_paths());
    paths
}

/// How many of the assets are loaded.
pub open spec fn count_loaded(loaded: Seq<bool>) -> nat
    decreases loaded.len(),
{
    if loaded.len() == 0 {
        0
    } else {
        count_loaded(loaded.drop_last()) + if loaded.last() { 1nat } else { 0nat }
    }
}

proof fn lemma_count_loaded_bounded(loaded: Seq<bool>)
    ensures
        count_loaded(loaded) <= loaded.len(),
        count_loaded(loaded) == loaded.len() <==> forall|i: int| 0 <= i < loaded.len() ==> #[trigger] loaded[i],
    decreases loaded.len(),
{
    if loaded.len() > 0 {
        let init = loaded.drop_last();
        lemma_count_loaded_bounded(init);
        if count_loaded(loaded) == loaded.len() {
            assert forall|i: int| 0 <= i < loaded.len() implies #[trigger] loaded[i] by {
                if i < loaded.len() - 1 {
                    assert(init[i] == loaded[i]);
                }
            }
        }
        if forall|i: int| 0 <= i < loaded.len() ==> #[trigger] loaded[i] {
            assert forall|i: int| 0 <= i < init.len() implies #[trigger] init[i] by {
                assert(init[i] == loaded[i]);
            }
            assert(loaded[loaded.len() - 1]);
        }
    }
}

/// Loading progress: how many assets are loaded, and whether all are.
pub fn loading_progress(loaded: &Vec<bool>) -> (r: (usize, bool))
    ensures
        r.0 == count_loaded(loaded@),
        r.1 == (forall|i: int| 0 <= i < loaded.len() ==> #[trigger] loaded@[i]),
{
    let mut count: usize = 0;
    let mut k: usize = 0;
    while k < loaded.len()
        invariant
            k <= loaded.len(),
            count == count_loaded(loaded@.take(k as int)),
            count <= k,
        decreases loaded.len() - k,
    {
        proof {
            assert(loaded@.take(k + 1).drop_last() =~= loaded@.take(k as int));
            lemma_count_loaded_bounded(loaded@.take(k as int));
        }
        if loaded[k] {
            count = count + 1;
        }
        k = k + 1;
    }
    proof {
        assert(loaded@.take(loaded.len() as int) =~= loaded@);
        lemma_count_loaded_bounded(loaded@);
    }
    (count, count == loaded.len())
}

/// Every sound effect, and the phase music, is among the sounds loaded
/// before the start menu, so no sound is fetched in the middle of a fight.
pub proof fn lemma_every_sound_is_preloaded(sfx: Sfx)
    ensures
        spec_sound_paths().contains(spec_sfx_path(sfx)),
        spec_sound_paths().contains(spec_theme_path()),
{
    let s = spec_sound_paths();
    assert(s[9] == spec_theme_path());
    match sfx {
        Sfx::Blink => assert(s[0] == spec_sfx_path(sfx)),
        Sfx::EnemyShootBig => assert(s[1] == spec_sfx_path(sfx)),
        Sfx::EnemyShoot => assert(s[2] == spec_sfx_path(sfx)),
        Sfx::GreenPop => assert(s[3] == spec_sfx_path(sfx)),
        Sfx::Hurt => assert(s[4] == spec_sfx_path(sfx)),
        Sfx::Jump => assert(s[5] == spec_sfx_path(sfx)),
        Sfx::MenuClick => assert(s[6] == spec_sfx_path(sfx)),
        Sfx::OrbHitEdge => assert(s[7] == spec_sfx_path(sfx)),
        Sfx::OrbHitTarget => assert(s[8] == spec_sfx_path(sfx)),
        Sfx::PortalEnter => assert(s[10] == spec_sfx_path(sfx)),
        Sfx::PortalExit => assert(s[11] == spec_sfx_path(sfx)),
        Sfx::Pull => assert(s[12] == spec_sfx_path(sfx)),
        Sfx::RedTarget => assert(s[13] == spec_sfx_path(sfx)),
        Sfx::Roar => assert(s[14] == spec_sfx_path(sfx)),
        Sfx::Shockwave => assert(s[15] == spec_sfx_path(sfx)),
        Sfx::Shoot => assert(s[16] == spec_sfx_path(sfx)),
    }
}

} // verus!

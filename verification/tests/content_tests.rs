use dragonfruitvoid::audio::{
    hurt_sfx_source, sfx_path, sfx_playback, sfx_volume_permille, Sfx, SfxSource,
};
use dragonfruitvoid::hints::{
    hints_all_phases, next_due_hint, phase_hints, setup_hints, HINT_BOSS, HINT_INDIVIDUAL_PHASE,
    HINT_WELCOME, HINT_ORB_PUSHING,
};
use dragonfruitvoid::loading::{
    font_path, loading_progress, preloaded_image_paths, preloaded_sound_paths, theme_path,
};
use dragonfruitvoid::state::GameState;
use dragonfruitvoid::timer::{Countdown, NANOS_PER_SEC};

#[test]
fn sound_files_and_volumes() {
    assert_eq!(sfx_path(Sfx::Blink), "sounds/blink.ogg");
    assert_eq!(sfx_path(Sfx::MenuClick), "sounds/menu_click.ogg");
    assert_eq!(sfx_volume_permille(Sfx::Hurt, SfxSource::Player), 1000);
    assert_eq!(sfx_volume_permille(Sfx::EnemyShoot, SfxSource::Enemy), 140);
    assert_eq!(sfx_volume_permille(Sfx::Roar, SfxSource::Enemy), 350);
    assert_eq!(sfx_volume_permille(Sfx::MenuClick, SfxSource::Player), 200);
    assert_eq!(sfx_volume_permille(Sfx::Shoot, SfxSource::Player), 200);
    assert!(sfx_playback(Sfx::Shoot, SfxSource::AiPlayer).is_none());
    let p = sfx_playback(Sfx::Jump, SfxSource::AiPlayer).unwrap();
    assert_eq!(p.path, "sounds/jump.ogg");
    assert_eq!(p.volume_permille, 200);
    assert_eq!(hurt_sfx_source(true, true), Some(SfxSource::AiPlayer));
    assert_eq!(hurt_sfx_source(false, true), Some(SfxSource::Player));
    assert_eq!(hurt_sfx_source(false, false), None);
}

#[test]
fn every_sound_is_preloaded() {
    let sounds = preloaded_sound_paths();
    let all = [
        Sfx::Blink, Sfx::EnemyShoot, Sfx::EnemyShootBig, Sfx::GreenPop, Sfx::Hurt, Sfx::Jump,
        Sfx::MenuClick, Sfx::OrbHitEdge, Sfx::OrbHitTarget, Sfx::PortalEnter, Sfx::PortalExit,
        Sfx::Pull, Sfx::RedTarget, Sfx::Roar, Sfx::Shockwave, Sfx::Shoot,
    ];
    for s in all {
        assert!(sounds.contains(&sfx_path(s)));
    }
    assert!(sounds.contains(&theme_path()));
    assert_eq!(sounds.len(), 17);
    assert_eq!(preloaded_image_paths().len(), 29);
    assert_eq!(font_path(), "trebuchet_ms.ttf");
}

#[test]
fn loading_counts() {
    assert_eq!(loading_progress(&vec![]), (0, true));
    assert_eq!(loading_progress(&vec![true, false, true]), (2, false));
    assert_eq!(loading_progress(&vec![true, true]), (2, true));
}

#[test]
fn phase_hint_lists() {
    let jormag = phase_hints(&GameState::Jormag);
    assert_eq!(jormag.len(), 3);
    assert_eq!(jormag[0].start_ds, 10);
    assert_eq!(jormag[0].hint, HINT_BOSS);
    assert_eq!(jormag[1].start_ds, 55);
    assert_eq!(jormag[2].start_ds, 155);
    assert!(phase_hints(&GameState::Nothing).is_empty());
    assert_eq!(phase_hints(&GameState::Primordus)[0].start_ds, 135);
    assert_eq!(hints_all_phases()[0].hint, HINT_WELCOME);
}

#[test]
fn hints_scheduled_per_session() {
    assert!(setup_hints(false, false, &GameState::Jormag).is_empty());
    let single = setup_hints(true, false, &GameState::Mordremoth);
    assert_eq!(single.len(), 3);
    assert_eq!(single[0].hint, HINT_WELCOME);
    assert_eq!(single[1].hint, HINT_INDIVIDUAL_PHASE);
    assert_eq!(single[1].start_ds, 1);
    assert_eq!(single[2].start_ds, 210);
    let first = setup_hints(true, false, &GameState::PurificationOne);
    assert_eq!(first.len(), 2);
    assert_eq!(first[1].hint, HINT_ORB_PUSHING);
    let cont_first = setup_hints(true, true, &GameState::PurificationOne);
    assert_eq!(cont_first.len(), 2);
    let cont_later = setup_hints(true, true, &GameState::Jormag);
    assert_eq!(cont_later.len(), 3);
    assert_eq!(cont_later[0].hint, HINT_BOSS);
    for list in [single, first, cont_first, cont_later] {
        for w in list.windows(2) {
            assert!(w[0].start_ds <= w[1].start_ds);
        }
    }
}

#[test]
fn due_hint_stops_at_first() {
    let mut starts = vec![
        Countdown::new_once(5 * NANOS_PER_SEC),
        Countdown::new_once(NANOS_PER_SEC),
        Countdown::new_once(0),
    ];
    assert_eq!(next_due_hint(&mut starts, 2 * NANOS_PER_SEC), Some(1));
    assert_eq!(starts[0].elapsed_ns, 2 * NANOS_PER_SEC);
    assert!(!starts[2].finished());
    assert_eq!(starts[2].elapsed_ns, 0);
    let mut later = vec![Countdown::new_once(5 * NANOS_PER_SEC)];
    assert_eq!(next_due_hint(&mut later, NANOS_PER_SEC), None);
    assert_eq!(later[0].elapsed_ns, NANOS_PER_SEC);
}

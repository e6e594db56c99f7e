use astrocards::game::audio::{Sfx, SfxPlayer};

#[test]
fn effects_have_their_names() {
    assert_eq!(Sfx::Explosion.id(), "explosion");
    assert_eq!(Sfx::LevelUp.id(), "levelup");
}

#[test]
fn player_starts_unmuted_and_idle() {
    let mut p = SfxPlayer::init();
    assert!(!p.muted());
    assert!(p.take_queued().is_empty());
}

#[test]
fn asked_effects_wait_in_order() {
    let mut p = SfxPlayer::init();
    p.play(Sfx::Explosion);
    p.play(Sfx::LevelUp);
    p.play(Sfx::Explosion);
    assert_eq!(p.take_queued(), vec![Sfx::Explosion, Sfx::LevelUp, Sfx::Explosion]);
    assert!(p.take_queued().is_empty());
}

#[test]
fn muted_player_queues_nothing() {
    let mut p = SfxPlayer::init();
    p.play(Sfx::LevelUp);
    p.toggle_mute();
    assert!(p.muted());
    p.play(Sfx::Explosion);
    assert_eq!(p.take_queued(), vec![Sfx::LevelUp]);
    p.toggle_mute();
    assert!(!p.muted());
    p.play(Sfx::Explosion);
    assert_eq!(p.take_queued(), vec![Sfx::Explosion]);
}

use astrocards::flashcards::Flashcard;
use astrocards::game::audio::Sfx;
use astrocards::game::sprite::{Asteroid, Explosion};
use astrocards::game::Game;

fn rock(x: i32, y: i32, name: &str, red: bool) -> Asteroid {
    Asteroid::new(x, y, 80_000, 0, Flashcard::new(name, "a"), red)
}

fn fallen(name: &str, red: bool) -> Asteroid {
    let mut a = rock(7, -270_001, name, red);
    a.deleted = true;
    a
}

#[test]
fn five_misses_end_the_game_and_a_sixth_changes_nothing() {
    let mut g = Game::new();
    assert_eq!(g.health, 5);
    for k in 1..=5u32 {
        g.asteroids.push(fallen("q", false));
        g.delete_asteroids();
        assert_eq!(g.health, 5 - k);
        assert!(g.asteroids.is_empty());
    }
    assert!(g.game_over());
    assert_eq!(g.log.len(), 5);
    assert_eq!(g.explosions.len(), 5);
    g.asteroids.push(fallen("q", false));
    g.delete_asteroids();
    assert_eq!(g.health, 0);
    assert!(g.game_over());
    assert_eq!(g.log.len(), 5);
    assert_eq!(g.explosions.len(), 6);
}

#[test]
fn five_misses_in_one_sweep_end_the_game() {
    let mut g = Game::new();
    for _ in 0..7 {
        g.asteroids.push(fallen("q", false));
    }
    g.delete_asteroids();
    assert_eq!(g.health, 0);
    assert_eq!(g.log.len(), 5);
    assert_eq!(g.explosions.len(), 7);
    assert_eq!(g.damage_animation_timer, 1_000_000);
}

#[test]
fn a_miss_is_logged_and_starts_the_damage_animation() {
    let mut g = Game::new();
    g.asteroids.push(fallen("capital", false));
    g.delete_asteroids();
    assert_eq!(g.health, 4);
    assert_eq!(g.damage_animation_timer, 1_000_000);
    assert_eq!(g.log.len(), 1);
    assert_eq!(g.log[0].flashcard.question, "capital");
    assert_eq!(g.log[0].timer, 10_000_000);
    assert_eq!(g.explosions, vec![Explosion { x: 7, y: -270_001, time: 0 }]);
    assert_eq!(g.audio.take_queued(), vec![Sfx::Explosion]);
    assert_eq!(g.score, 0);
    assert_eq!(g.level, 1);
    assert_eq!(g.asteroids_until_next_level, 5);
}

#[test]
fn a_hazard_at_the_bottom_takes_all_health() {
    let mut g = Game::new();
    g.asteroids.push(fallen("h", true));
    g.asteroids.push(fallen("later", false));
    g.delete_asteroids();
    assert_eq!(g.health, 0);
    assert!(g.game_over());
    assert_eq!(g.damage_animation_timer, 0);
    assert_eq!(g.log.len(), 1);
    assert_eq!(g.log[0].flashcard.question, "h");
    assert_eq!(g.explosions.len(), 2);
}

#[test]
fn the_last_health_goes_without_an_animation_in_the_sweep() {
    let mut g = Game::new();
    g.health = 1;
    g.asteroids.push(fallen("q", false));
    g.delete_asteroids();
    assert_eq!(g.health, 0);
    assert_eq!(g.damage_animation_timer, 0);
    assert_eq!(g.log.len(), 1);
}

#[test]
fn an_answered_asteroid_bursts_without_harm() {
    let mut g = Game::new();
    let mut a = rock(11, 22, "q", true);
    a.deleted = true;
    a.destroyed = true;
    g.asteroids.push(a);
    g.delete_asteroids();
    assert!(g.asteroids.is_empty());
    assert_eq!(g.health, 5);
    assert!(g.log.is_empty());
    assert_eq!(g.damage_animation_timer, 0);
    assert_eq!(g.explosions, vec![Explosion { x: 11, y: 22, time: 0 }]);
    assert_eq!(g.audio.take_queued(), vec![Sfx::Explosion]);
}

#[test]
fn a_flagged_asteroid_on_the_canvas_just_goes() {
    let mut g = Game::new();
    let mut a = rock(0, 0, "q", true);
    a.deleted = true;
    g.asteroids.push(a);
    g.delete_asteroids();
    assert!(g.asteroids.is_empty());
    assert_eq!(g.health, 5);
    assert!(g.explosions.is_empty());
    assert!(g.log.is_empty());
    assert!(g.audio.take_queued().is_empty());
}

#[test]
fn unflagged_asteroids_stay_in_order() {
    let mut g = Game::new();
    g.asteroids.push(rock(1, 0, "a", false));
    g.asteroids.push(fallen("b", false));
    g.asteroids.push(rock(3, -280_000, "c", true));
    g.asteroids.push(rock(4, 400_000, "d", false));
    g.delete_asteroids();
    let names: Vec<String> = g.asteroids.iter().map(|a| a.flashcard.question.clone()).collect();
    assert_eq!(names, vec!["a", "c", "d"]);
    assert_eq!(g.asteroids[1].sprite.x, 3);
    assert!(g.asteroids[1].is_red);
    assert_eq!(g.health, 4);
}

#[test]
fn muted_sweep_asks_for_no_sound() {
    let mut g = Game::new();
    g.audio.toggle_mute();
    g.asteroids.push(fallen("q", false));
    g.delete_asteroids();
    assert_eq!(g.explosions.len(), 1);
    assert!(g.audio.take_queued().is_empty());
}

#[test]
fn explosions_age_and_go_at_the_end_of_their_lifetime() {
    let mut g = Game::new();
    g.explosions.push(Explosion { x: 1, y: 1, time: 0 });
    g.explosions.push(Explosion { x: 2, y: 2, time: 999_998 });
    g.explosions.push(Explosion { x: 3, y: 3, time: 999_999 });
    g.explosions.push(Explosion { x: 4, y: 4, time: u64::MAX });
    g.update_explosions(1);
    assert_eq!(
        g.explosions,
        vec![Explosion { x: 1, y: 1, time: 1 }, Explosion { x: 2, y: 2, time: 999_999 }]
    );
}

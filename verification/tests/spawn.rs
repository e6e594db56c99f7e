use astrocards::flashcards::Flashcard;
use astrocards::game::spawn::{
    intersects_another_asteroid, overlaps, scale, AsteroidDraw, SpawnDraws, ASTEROID_SIZE,
};
use astrocards::game::sprite::{Asteroid, Sprite2D};
use astrocards::game::Game;

const HALF: u32 = 0x8000_0000;

fn draw(x: u32) -> AsteroidDraw {
    AsteroidDraw { x, jitter: 0, rotation: 0, card: 0, hazard: 1 }
}

fn only_wave(x: u32) -> SpawnDraws {
    SpawnDraws {
        extra: false,
        extra_asteroid: draw(0),
        third: 1,
        third_asteroid: draw(0),
        wave_asteroid: draw(x),
    }
}

fn rock(x: i32, y: i32) -> Asteroid {
    Asteroid::new(x, y, ASTEROID_SIZE, 0, Flashcard::new("q", "a"), false)
}

fn pool() -> Vec<Flashcard> {
    vec![Flashcard::new("q0", "a0"), Flashcard::new("q1", "a1"), Flashcard::new("q2", "a2")]
}

#[test]
fn a_draw_is_scaled_to_its_share_of_the_range() {
    assert_eq!(scale(0, 800_000), 0);
    assert_eq!(scale(HALF, 800_000), 400_000);
    assert_eq!(scale(u32::MAX, 800_000), 799_999);
    assert_eq!(scale(0x4000_0000, 360_000), 90_000);
    assert_eq!(scale(u32::MAX, 0), 0);
    assert_eq!(scale(u32::MAX, u32::MAX), u32::MAX - 1);
    assert_eq!(scale(1, 800_000), 0);
}

#[test]
fn footprints_overlap_when_closer_than_half_the_widths() {
    let a = Sprite2D::new(0, 0, 80_000, 80_000);
    assert!(overlaps(&a, &Sprite2D::new(79_999, 0, 80_000, 80_000)));
    assert!(!overlaps(&a, &Sprite2D::new(80_000, 0, 80_000, 80_000)));
    assert!(overlaps(&a, &Sprite2D::new(0, -79_999, 80_000, 80_000)));
    assert!(!overlaps(&a, &Sprite2D::new(0, -80_000, 80_000, 80_000)));
    assert!(overlaps(&a, &Sprite2D::new(48_000, 63_999, 80_000, 80_000)));
    assert!(!overlaps(&a, &Sprite2D::new(48_000, 64_000, 80_000, 80_000)));
    assert!(overlaps(&a, &a));
    assert!(overlaps(&a, &Sprite2D::new(50_000, 0, 20_001, 5)));
    assert!(!overlaps(&a, &Sprite2D::new(50_000, 0, 20_000, 5)));
}

#[test]
fn footprints_without_width_never_overlap() {
    let a = Sprite2D::new(0, 0, 0, 0);
    assert!(!overlaps(&a, &a));
    let b = Sprite2D::new(0, 0, -5, 0);
    assert!(!overlaps(&b, &Sprite2D::new(0, 0, 5, 0)));
    assert!(!overlaps(&b, &Sprite2D::new(0, 0, 4, 0)));
    assert!(overlaps(&b, &Sprite2D::new(0, 0, 6, 0)));
}

#[test]
fn footprints_at_the_ends_of_the_range_do_not_overflow() {
    let a = Sprite2D::new(i32::MIN, i32::MIN, i32::MAX, 1);
    let b = Sprite2D::new(i32::MAX, i32::MAX, i32::MAX, 1);
    assert!(!overlaps(&a, &b));
    assert!(overlaps(&a, &a));
}

#[test]
fn a_candidate_is_checked_against_every_asteroid() {
    let others = vec![rock(0, 0), rock(500_000, 0), rock(0, 500_000)];
    assert!(intersects_another_asteroid(&rock(10, 400_000 + 20_001), &others));
    assert!(intersects_another_asteroid(&rock(579_999, 0), &others));
    assert!(!intersects_another_asteroid(&rock(250_000, 250_000), &others));
    assert!(!intersects_another_asteroid(&rock(0, 0), &vec![]));
}

#[test]
fn nothing_spawns_once_the_quota_is_used_up() {
    let mut g = Game::new();
    g.asteroids_until_next_level = 0;
    g.asteroid_spawn_timer = 5;
    g.spawn_asteroid_with(1_000, &only_wave(0));
    assert!(g.asteroids.is_empty());
    assert_eq!(g.asteroid_spawn_timer, 5);
}

#[test]
fn the_spawn_timer_runs_and_starts_over() {
    let mut g = Game::new();
    g.asteroid_spawn_timer = 1_000;
    g.spawn_asteroid_with(999, &only_wave(0));
    assert!(g.asteroids.is_empty());
    assert_eq!(g.asteroid_spawn_timer, 1);
    g.spawn_asteroid_with(1, &only_wave(0));
    assert_eq!(g.asteroids.len(), 1);
    assert_eq!(g.asteroid_spawn_timer, 6_800_000);
    g.spawn_interval = 77;
    g.spawn_asteroid_with(u64::MAX, &only_wave(HALF));
    assert_eq!(g.asteroids.len(), 2);
    assert_eq!(g.asteroid_spawn_timer, 77);
}

#[test]
fn an_asteroid_appears_out_of_sight_above_the_top_edge() {
    let mut g = Game::new();
    g.flashcards = pool();
    let mut draws = only_wave(0);
    draws.wave_asteroid =
        AsteroidDraw { x: u32::MAX, jitter: u32::MAX, rotation: 0x4000_0000, card: 1, hazard: 0 };
    g.spawn_asteroid_with(0, &draws);
    assert_eq!(g.asteroids.len(), 1);
    let a = &g.asteroids[0];
    assert_eq!(a.sprite, Sprite2D { x: 399_999, y: 939_999, width: 80_000, height: 80_000 });
    assert_eq!(a.rotation, 90_000);
    assert_eq!(a.flashcard.question, "q1");
    assert_eq!(a.flashcard.answer, "a1");
    assert!(!a.is_red);
    assert!(!a.deleted);
    assert!(!a.destroyed);
    assert!(a.above_top());
}

#[test]
fn an_asteroid_without_jitter_is_still_above_the_top_edge() {
    let mut g = Game::new();
    g.spawn_asteroid_with(0, &only_wave(0));
    assert_eq!(g.asteroids.len(), 1);
    assert_eq!(
        g.asteroids[0].sprite,
        Sprite2D { x: -400_000, y: 620_000, width: 80_000, height: 80_000 }
    );
    assert!(g.asteroids[0].above_top());
    g.answer = "None".to_string();
    g.submit_answer();
    assert!(!g.asteroids[0].destroyed);
    assert_eq!(g.score, 0);
}

#[test]
fn the_jitter_lifts_an_asteroid() {
    let mut low = only_wave(0);
    low.wave_asteroid.jitter = HALF;
    let mut g = Game::new();
    g.spawn_asteroid_with(0, &low);
    assert_eq!(g.asteroids[0].sprite.y, 780_000);
    let mut one = only_wave(0);
    one.wave_asteroid.jitter = 13_422;
    let mut h = Game::new();
    h.spawn_asteroid_with(0, &one);
    assert_eq!(h.asteroids[0].sprite.y, 620_001);
}

#[test]
fn additional_asteroids_come_first() {
    let mut g = Game::new();
    g.flashcards = pool();
    g.level = 6;
    let draws = SpawnDraws {
        extra: true,
        extra_asteroid: AsteroidDraw { x: 0, jitter: HALF, rotation: 0, card: 0, hazard: 8 },
        third: 8,
        third_asteroid: AsteroidDraw { x: HALF, jitter: u32::MAX, rotation: 1, card: 2, hazard: 9 },
        wave_asteroid: AsteroidDraw { x: HALF, jitter: 5, rotation: u32::MAX, card: 9, hazard: 16 },
    };
    g.spawn_asteroid_with(0, &draws);
    assert_eq!(g.asteroids.len(), 3);
    assert_eq!(
        g.asteroids[0].sprite,
        Sprite2D { x: -400_000, y: 780_000, width: 80_000, height: 80_000 }
    );
    assert!(g.asteroids[0].is_red);
    assert_eq!(g.asteroids[0].flashcard.question, "q0");
    assert_eq!(
        g.asteroids[1].sprite,
        Sprite2D { x: 0, y: 939_999, width: 80_000, height: 80_000 }
    );
    assert!(!g.asteroids[1].is_red);
    assert_eq!(g.asteroids[1].flashcard.question, "q2");
    assert_eq!(g.asteroids[2].sprite, Sprite2D { x: 0, y: 620_000, width: 80_000, height: 80_000 });
    assert!(g.asteroids[2].is_red);
    assert_eq!(g.asteroids[2].rotation, 359_999);
    assert_eq!(g.asteroids[2].flashcard.question, "None");
    for a in &g.asteroids {
        assert!(a.above_top());
        assert!(!a.deleted);
        assert!(!a.destroyed);
    }
}

#[test]
fn the_third_asteroid_needs_its_level_and_its_draw() {
    let mut draws = only_wave(0);
    draws.third = 8;
    draws.third_asteroid = draw(HALF);
    let mut g = Game::new();
    g.level = 5;
    g.spawn_asteroid_with(0, &draws);
    assert_eq!(g.asteroids.len(), 1);
    let mut h = Game::new();
    h.level = 6;
    h.spawn_asteroid_with(0, &draws);
    assert_eq!(h.asteroids.len(), 2);
    draws.third = 9;
    let mut k = Game::new();
    k.level = 60;
    k.spawn_asteroid_with(0, &draws);
    assert_eq!(k.asteroids.len(), 1);
}

#[test]
fn a_candidate_that_overlaps_is_left_out() {
    let mut g = Game::new();
    g.asteroids.push(rock(-320_001, 620_000));
    g.spawn_asteroid_with(0, &only_wave(0));
    assert_eq!(g.asteroids.len(), 1);
    assert_eq!(g.asteroid_spawn_timer, 6_800_000);
    let mut h = Game::new();
    h.asteroids.push(rock(-320_000, 620_000));
    h.spawn_asteroid_with(0, &only_wave(0));
    assert_eq!(h.asteroids.len(), 2);
}

#[test]
fn asteroids_of_one_wave_block_each_other() {
    let mut g = Game::new();
    g.level = 6;
    let mut draws = SpawnDraws {
        extra: true,
        extra_asteroid: draw(HALF),
        third: 0,
        third_asteroid: draw(HALF),
        wave_asteroid: draw(0),
    };
    g.spawn_asteroid_with(0, &draws);
    let xs: Vec<i32> = g.asteroids.iter().map(|a| a.sprite.x).collect();
    assert_eq!(xs, vec![0, -400_000]);
    draws.wave_asteroid = draw(HALF);
    let mut h = Game::new();
    h.level = 6;
    h.spawn_asteroid_with(0, &draws);
    assert_eq!(h.asteroids.len(), 1);
    assert_eq!(h.asteroids[0].sprite.x, 0);
    assert_eq!(h.asteroid_spawn_timer, 6_800_000);
}

#[test]
fn a_card_is_picked_by_its_index_or_the_stand_in() {
    let mut g = Game::new();
    assert_eq!(g.pick_card(0).question, "None");
    g.flashcards = pool();
    assert_eq!(g.pick_card(0).question, "q0");
    assert_eq!(g.pick_card(2).answer, "a2");
    assert_eq!(g.pick_card(3).question, "None");
    assert_eq!(g.pick_card(usize::MAX).answer, "None");
}

#[test]
fn a_random_card_is_one_of_the_pool() {
    let mut g = Game::new();
    g.flashcards = pool();
    let mut seen = [false; 3];
    for _ in 0..400 {
        let c = g.get_random_card();
        let i = match c.question.as_str() {
            "q0" => 0,
            "q1" => 1,
            "q2" => 2,
            other => panic!("not of the pool: {other}"),
        };
        assert_eq!(c.answer, format!("a{i}"));
        seen[i] = true;
    }
    assert_eq!(seen, [true, true, true]);
}

#[test]
fn a_random_card_of_a_pool_of_one_is_that_one() {
    let mut g = Game::new();
    g.flashcards = vec![Flashcard::new("only", "one")];
    for _ in 0..20 {
        assert_eq!(g.get_random_card().question, "only");
    }
}

#[test]
fn random_draws_fit_the_pool() {
    for _ in 0..200 {
        let d = SpawnDraws::random(3);
        assert!(d.extra_asteroid.card < 3);
        assert!(d.third_asteroid.card < 3);
        assert!(d.wave_asteroid.card < 3);
        let e = AsteroidDraw::random(0);
        assert_eq!(e.card, 0);
    }
}

#[test]
fn a_random_wave_brings_one_to_two_asteroids_at_level_one() {
    for _ in 0..50 {
        let mut g = Game::new();
        g.flashcards = pool();
        g.spawn_asteroid(0);
        assert!(g.asteroids.len() >= 1 && g.asteroids.len() <= 2);
        assert_eq!(g.asteroid_spawn_timer, 6_800_000);
        for a in &g.asteroids {
            assert!(a.sprite.x >= -400_000 && a.sprite.x < 400_000);
            assert!(a.sprite.y >= 620_000 && a.sprite.y < 940_000);
            assert!(a.above_top());
            assert!(!a.deleted && !a.destroyed);
            assert_eq!(a.sprite.width, 80_000);
            assert!(a.rotation < 360_000);
            assert!(!a.is_red);
            assert!(["q0", "q1", "q2"].contains(&a.flashcard.question.as_str()));
        }
        if g.asteroids.len() == 2 {
            assert!(!overlaps(&g.asteroids[0].sprite, &g.asteroids[1].sprite));
        }
    }
}

#[test]
fn a_random_tick_spawns_nothing_before_its_time() {
    let mut g = Game::new();
    g.asteroid_spawn_timer = 10;
    g.spawn_asteroid(9);
    assert!(g.asteroids.is_empty());
    assert_eq!(g.asteroid_spawn_timer, 1);
}

use astrocards::flashcards::Flashcard;
use astrocards::game::sprite::{Asteroid, Explosion, Sprite2D};

fn rock(y: i32) -> Asteroid {
    Asteroid::new(0, y, 80_000, 0, Flashcard::new("q", "a"), false)
}

#[test]
fn sprite_keeps_what_it_is_given() {
    let s = Sprite2D::new(1, -2, 3, 4);
    assert_eq!(s, Sprite2D { x: 1, y: -2, width: 3, height: 4 });
}

#[test]
fn new_asteroid_is_square_and_unflagged() {
    let a = Asteroid::new(5, 6, 80_000, 90_000, Flashcard::new("2+2", "4"), true);
    assert_eq!(a.sprite, Sprite2D { x: 5, y: 6, width: 80_000, height: 80_000 });
    assert_eq!(a.rotation, 90_000);
    assert!(a.is_red);
    assert!(!a.deleted);
    assert!(!a.destroyed);
    assert_eq!(a.flashcard.question, "2+2");
    assert_eq!(a.flashcard.answer, "4");
}

#[test]
fn bottom_is_strictly_below_half_the_canvas() {
    assert!(!rock(-270_000).at_bottom());
    assert!(rock(-270_001).at_bottom());
    assert!(!rock(0).at_bottom());
    assert!(rock(i32::MIN).at_bottom());
}

#[test]
fn above_top_is_strictly_above_the_edge_plus_half_the_height() {
    assert!(!rock(310_000).above_top());
    assert!(rock(310_001).above_top());
    assert!(!rock(0).above_top());
    assert!(rock(i32::MAX).above_top());
    let mut odd = rock(270_000);
    odd.sprite.height = 1;
    assert!(!odd.above_top());
    odd.sprite.y = 270_001;
    assert!(odd.above_top());
}

#[test]
fn asteroid_falls_and_turns() {
    let mut a = rock(100_000);
    a.update(1_000_000, 21_600);
    assert_eq!(a.sprite.y, 78_400);
    assert_eq!(a.sprite.x, 0);
    assert_eq!(a.rotation, 45_000);
    assert!(!a.deleted);
    a.update(16_667, 21_600);
    assert_eq!(a.sprite.y, 78_400 - 360);
    assert_eq!(a.rotation, 45_750);
}

#[test]
fn rotation_stays_within_a_turn() {
    let mut a = rock(0);
    a.rotation = 350_000;
    a.update(1_000_000, 0);
    assert_eq!(a.rotation, 35_000);
    assert_eq!(a.sprite.y, 0);
    a.update(u64::MAX, 0);
    assert!(a.rotation < 360_000);
}

#[test]
fn fall_past_the_bottom_flags_the_asteroid() {
    let mut a = rock(-260_000);
    a.update(1_000_000, 10_000);
    assert_eq!(a.sprite.y, -270_000);
    assert!(!a.deleted);
    a.update(1, 1_000_000);
    assert_eq!(a.sprite.y, -270_001);
    assert!(a.deleted);
    assert!(!a.destroyed);
}

#[test]
fn fall_stops_at_the_lowest_height() {
    let mut a = rock(0);
    a.update(u64::MAX, u32::MAX);
    assert_eq!(a.sprite.y, i32::MIN);
    assert!(a.deleted);
}

#[test]
fn asteroid_clone_is_equal() {
    let a = Asteroid::new(1, 2, 3, 4, Flashcard::new("q", "a"), true);
    let b = a.clone();
    assert_eq!(b.sprite, a.sprite);
    assert_eq!(b.rotation, 4);
    assert!(b.is_red);
    assert_eq!(b.flashcard.question, "q");
    assert_eq!(b.flashcard.answer, "a");
}

#[test]
fn explosion_ages() {
    let mut e = Explosion::new(3, 4);
    assert_eq!(e, Explosion { x: 3, y: 4, time: 0 });
    e.update(250_000);
    assert_eq!(e.time, 250_000);
    e.update(u64::MAX);
    assert_eq!(e.time, u64::MAX);
}

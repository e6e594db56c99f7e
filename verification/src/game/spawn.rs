//! The spawn controller: when asteroids appear, where, and which.

use vstd::prelude::*;
use crate::flashcards::{none_card, Flashcard, FlashcardView};
use crate::game::difficulty::{hazard, is_red};
use crate::game::sprite::{asteroid_views, Asteroid, AsteroidView, Sprite2D};
use crate::game::{Game, GameView};
use crate::random::{random_bool, random_index, random_u32};
use crate::units::FULL_TURN;

verus! {

/// Side of an asteroid.
pub const ASTEROID_SIZE: i32 = 80_000;

/// The leftmost centre at which an asteroid appears: one asteroid's side
/// inside the left edge of the canvas.
pub const SPAWN_LEFT: i32 = -400_000;

/// Width of the strip in which asteroids appear: the canvas less one
/// asteroid's side at either edge.
pub const SPAWN_RANGE: u32 = 800_000;

/// Least height at which an asteroid appears: an asteroid's side above a
/// canvas height, out of sight above the top edge.
pub const SPAWN_HEIGHT: i32 = 620_000;

/// An asteroid appears less than this above `SPAWN_HEIGHT`.
pub const SPAWN_JITTER: u32 = 320_000;

/// From this level on a wave may bring a third asteroid.
pub const THIRD_ASTEROID_LEVEL: u32 = 6;

/// A wave brings a third asteroid when its draw is a multiple of this.
pub const THIRD_ASTEROID_ODDS: u32 = 4;

/// A 32-bit draw as a whole number below `range`: the draw's share of the
/// 32-bit range, taken of `range` and rounded down.
pub open spec fn scaled(draw: u32, range: u32) -> int {
    draw as int * range as int / 0x1_0000_0000
}

/// Computes `scaled`.
pub fn scale(draw: u32, range: u32) -> (part: u32)
    ensures
        part == scaled(draw, range),
        range > 0 ==> part < range,
{
    assert(draw as int * range as int <= 0xFFFF_FFFF * 0xFFFF_FFFF) by (nonlinear_arith)
        requires
            0 <= draw <= 0xFFFF_FFFF,
            0 <= range <= 0xFFFF_FFFF,
    ;
    let part: u64 = draw as u64 * range as u64 / 0x1_0000_0000;
    assert(part <= range && (range > 0 ==> part < range)) by (nonlinear_arith)
        requires
            part == draw as int * range as int / 0x1_0000_0000,
            0 <= draw < 0x1_0000_0000,
            0 <= range,
    ;
    part as u32
}

/// What chance decides of one asteroid, as it was drawn.
#[derive(Clone, Copy, Debug, PartialEq, Eq, Structural)]
pub struct AsteroidDraw {
    /// Places the asteroid across the spawn strip.
    pub x: u32,
    /// Lifts the asteroid above the least height at which one appears.
    pub jitter: u32,
    /// Turns the asteroid.
    pub rotation: u32,
    /// Index of the card in the pool.
    pub card: usize,
    /// Decides whether the asteroid is hazardous.
    pub hazard: u32,
}

/// What chance decides of one wave, as it was drawn.
#[derive(Clone, Copy, Debug, PartialEq, Eq, Structural)]
pub struct SpawnDraws {
    /// Whether an additional asteroid comes.
    pub extra: bool,
    pub extra_asteroid: AsteroidDraw,
    /// A third asteroid comes when this is a multiple of
    /// `THIRD_ASTEROID_ODDS` and the level allows it.
    pub third: u32,
    pub third_asteroid: AsteroidDraw,
    /// The asteroid that every wave brings.
    pub wave_asteroid: AsteroidDraw,
}

impl AsteroidDraw {
    /// The drawn card is one of a pool of `cards`; of an empty pool
    /// nothing is asked.
    pub open spec fn fits(self, cards: nat) -> bool {
        cards > 0 ==> self.card < cards
    }

    /// Draws what chance decides of one asteroid, for a pool of `cards`:
    /// the card is one of the pool, and the first place where the pool is
    /// empty and there is nothing to draw from. Of the other draws nothing
    /// holds but that they were drawn.
    pub fn random(cards: usize) -> (draw: Self)
        ensures
            draw.fits(cards as nat),
            cards == 0 ==> draw.card == 0,
    {
        let x = random_u32();
        let jitter = random_u32();
        let rotation = random_u32();
        let card: usize = if cards > 0 {
            random_index(cards)
        } else {
            0
        };
        let hazard = random_u32();
        AsteroidDraw { x, jitter, rotation, card, hazard }
    }
}

impl SpawnDraws {
    /// Every drawn card is one of a pool of `cards`.
    pub open spec fn fits(self, cards: nat) -> bool {
        &&& self.extra_asteroid.fits(cards)
        &&& self.third_asteroid.fits(cards)
        &&& self.wave_asteroid.fits(cards)
    }

    /// The draws of a wave that brings one asteroid, all of them 0.
    pub open spec fn still() -> SpawnDraws {
        let zero = AsteroidDraw { x: 0, jitter: 0, rotation: 0, card: 0, hazard: 0 };
        SpawnDraws {
            extra: false,
            extra_asteroid: zero,
            third: 1,
            third_asteroid: zero,
            wave_asteroid: zero,
        }
    }

    /// Draws what chance decides of one wave, for a pool of `cards`:
    /// every card is one of the pool, and the first place where the pool
    /// is empty. Of the other draws nothing holds but that they were
    /// drawn.
    pub fn random(cards: usize) -> (draws: Self)
        ensures
            draws.fits(cards as nat),
            cards == 0 ==> draws.extra_asteroid.card == 0 && draws.third_asteroid.card == 0
                && draws.wave_asteroid.card == 0,
    {
        let extra = random_bool();
        let extra_asteroid = AsteroidDraw::random(cards);
        let third = random_u32();
        let third_asteroid = AsteroidDraw::random(cards);
        let wave_asteroid = AsteroidDraw::random(cards);
        SpawnDraws { extra, extra_asteroid, third, third_asteroid, wave_asteroid }
    }
}

/// The card at `index` of the pool; where the pool has none there, the
/// stand-in card.
pub open spec fn card_at(cards: Seq<FlashcardView>, index: int) -> FlashcardView {
    if 0 <= index < cards.len() {
        cards[index]
    } else {
        none_card()
    }
}

/// Two footprints overlap: the centres are closer to each other than half
/// the sum of the widths.
pub open spec fn footprints_overlap(a: Sprite2D, b: Sprite2D) -> bool {
    let dx = b.x - a.x;
    let dy = b.y - a.y;
    let reach = a.width + b.width;
    reach > 0 && 4 * (dx * dx + dy * dy) < reach * reach
}

/// The footprint of `a` overlaps that of some asteroid of `others`.
pub open spec fn blocked(others: Seq<AsteroidView>, a: AsteroidView) -> bool {
    exists|i: int| 0 <= i < others.len() && footprints_overlap(a.sprite, #[trigger] others[i].sprite)
}

/// Whether two footprints overlap.
pub fn overlaps(a: &Sprite2D, b: &Sprite2D) -> (hit: bool)
    ensures
        hit == footprints_overlap(*a, *b),
{
    let dx: i128 = b.x as i128 - a.x as i128;
    let dy: i128 = b.y as i128 - a.y as i128;
    let reach: i128 = a.width as i128 + b.width as i128;
    assert(0 <= dx * dx <= 0x1_0000_0000 * 0x1_0000_0000) by (nonlinear_arith)
        requires
            -0x1_0000_0000 <= dx <= 0x1_0000_0000,
    ;
    assert(0 <= dy * dy <= 0x1_0000_0000 * 0x1_0000_0000) by (nonlinear_arith)
        requires
            -0x1_0000_0000 <= dy <= 0x1_0000_0000,
    ;
    assert(0 <= reach * reach <= 0x1_0000_0000 * 0x1_0000_0000) by (nonlinear_arith)
        requires
            -0x1_0000_0000 <= reach <= 0x1_0000_0000,
    ;
    reach > 0 && 4 * (dx * dx + dy * dy) < reach * reach
}

/// Whether the footprint of `asteroid` overlaps that of any of `other`.
pub fn intersects_another_asteroid(asteroid: &Asteroid, other: &Vec<Asteroid>) -> (hit: bool)
    ensures
        hit == blocked(asteroid_views(other@), asteroid@),
{
    let mut i: usize = 0;
    while i < other.len()
        invariant
            i <= other.len(),
            forall|k: int|
                0 <= k < i ==> !footprints_overlap(
                    asteroid@.sprite,
                    #[trigger] asteroid_views(other@)[k].sprite,
                ),
        decreases other.len() - i,
    {
        if overlaps(&asteroid.sprite, &other[i].sprite) {
            assert(footprints_overlap(asteroid@.sprite, asteroid_views(other@)[i as int].sprite));
            return true;
        }
        i = i + 1;
    }
    false
}

impl GameView {
    /// The asteroid that `draw` describes at the game's level. It appears
    /// out of sight above the top edge, lifted by its jitter, somewhere
    /// across the spawn strip, unflagged, with the drawn card.
    pub open spec fn candidate(self, draw: AsteroidDraw) -> AsteroidView {
        AsteroidView {
            sprite: Sprite2D {
                x: (SPAWN_LEFT + scaled(draw.x, SPAWN_RANGE)) as i32,
                y: (SPAWN_HEIGHT + scaled(draw.jitter, SPAWN_JITTER)) as i32,
                width: ASTEROID_SIZE,
                height: ASTEROID_SIZE,
            },
            rotation: scaled(draw.rotation, FULL_TURN) as u32,
            is_red: hazard(draw.hazard, self.level),
            deleted: false,
            destroyed: false,
            flashcard: card_at(self.flashcards, draw.card as int),
        }
    }

    /// The game after `a` asked for a place: it joins the asteroids unless
    /// its footprint overlaps that of one of them.
    pub open spec fn placed(self, a: AsteroidView) -> GameView {
        if blocked(self.asteroids, a) {
            self
        } else {
            GameView { asteroids: self.asteroids.push(a), ..self }
        }
    }

    /// A wave is due after `dt`: the quota is not used up and the spawn
    /// timer runs out.
    pub open spec fn spawn_due(self, dt: u64) -> bool {
        self.asteroids_until_next_level != 0 && self.asteroid_spawn_timer <= dt
    }

    /// The game after `dt` passed for the spawn timer: it stands still
    /// once the quota is used up, and starts over at the spawn interval
    /// when it runs out.
    pub open spec fn spawn_ticked(self, dt: u64) -> GameView {
        if self.asteroids_until_next_level == 0 {
            self
        } else if self.asteroid_spawn_timer > dt {
            GameView { asteroid_spawn_timer: (self.asteroid_spawn_timer - dt) as u64, ..self }
        } else {
            GameView { asteroid_spawn_timer: self.spawn_interval, ..self }
        }
    }

    /// A wave brings a third asteroid.
    pub open spec fn third_comes(self, draws: SpawnDraws) -> bool {
        draws.third % THIRD_ASTEROID_ODDS == 0 && self.level >= THIRD_ASTEROID_LEVEL
    }

    /// The game after a wave: first the additional asteroid asks for a
    /// place, if one comes, then the third, if one comes, then the one
    /// that every wave brings. All three appear in the same way.
    pub open spec fn wave(self, draws: SpawnDraws) -> GameView {
        let second = if draws.extra {
            self.placed(self.candidate(draws.extra_asteroid))
        } else {
            self
        };
        let third = if self.third_comes(draws) {
            second.placed(self.candidate(draws.third_asteroid))
        } else {
            second
        };
        third.placed(self.candidate(draws.wave_asteroid))
    }

    /// The game after `dt` passed for the spawn controller, with `draws`
    /// for the wave if one is due.
    pub open spec fn spawned(self, dt: u64, draws: SpawnDraws) -> GameView {
        if self.spawn_due(dt) {
            self.spawn_ticked(dt).wave(draws)
        } else {
            self.spawn_ticked(dt)
        }
    }
}

/// A scaled draw is a whole number from 0 up to, but not reaching, the
/// range.
pub proof fn lemma_scaled_bounds(draw: u32, range: u32)
    requires
        range > 0,
    ensures
        0 <= scaled(draw, range) < range,
{
    assert(0 <= draw as int * range as int / 0x1_0000_0000 < range) by (nonlinear_arith)
        requires
            0 <= draw < 0x1_0000_0000,
            0 < range,
    ;
}

/// Every asteroid that the spawn controller makes appears out of sight
/// above the top edge, lifted by its jitter. It is unflagged, as wide and
/// high as an asteroid's side, within the spawn strip, and turned by less
/// than a full turn. It carries the stand-in card where the pool is
/// empty and a card of the pool where the draw fits the pool. At level 1
/// it is not hazardous.
pub proof fn lemma_candidate_is_above_top(game: GameView, draw: AsteroidDraw)
    ensures
        game.candidate(draw).above_top(),
        !game.candidate(draw).at_bottom(),
        !game.candidate(draw).deleted,
        !game.candidate(draw).destroyed,
        game.candidate(draw).sprite.width == ASTEROID_SIZE,
        game.candidate(draw).sprite.height == ASTEROID_SIZE,
        SPAWN_LEFT <= game.candidate(draw).sprite.x < SPAWN_LEFT + SPAWN_RANGE,
        game.candidate(draw).sprite.y == SPAWN_HEIGHT + scaled(draw.jitter, SPAWN_JITTER),
        SPAWN_HEIGHT <= game.candidate(draw).sprite.y < SPAWN_HEIGHT + SPAWN_JITTER,
        game.candidate(draw).rotation < FULL_TURN,
        game.level == 1 ==> !game.candidate(draw).is_red,
        game.flashcards.len() == 0 ==> game.candidate(draw).flashcard == none_card(),
        game.flashcards.len() > 0 && draw.fits(game.flashcards.len())
            ==> game.flashcards.contains(game.candidate(draw).flashcard),
{
    lemma_scaled_bounds(draw.x, SPAWN_RANGE);
    lemma_scaled_bounds(draw.jitter, SPAWN_JITTER);
    lemma_scaled_bounds(draw.rotation, FULL_TURN);
    if game.flashcards.len() > 0 && draw.fits(game.flashcards.len()) {
        assert(game.flashcards[draw.card as int] == game.candidate(draw).flashcard);
    }
}

impl Game {
    /// The card at `index` of the pool; where the pool has none there, the
    /// stand-in card.
    pub fn pick_card(&self, index: usize) -> (card: Flashcard)
        ensures
            card@ == card_at(self@.flashcards, index as int),
    {
        if index < self.flashcards.len() {
            self.flashcards[index].clone()
        } else {
            Flashcard::none()
        }
    }

    /// Some card of the pool, by chance; of an empty pool the stand-in
    /// card.
    pub fn get_random_card(&self) -> (card: Flashcard)
        ensures
            self@.flashcards.len() == 0 ==> card@ == none_card(),
            self@.flashcards.len() > 0 ==> exists|i: int|
                0 <= i < self@.flashcards.len() && card@ == self@.flashcards[i],
    {
        if self.flashcards.len() == 0 {
            Flashcard::none()
        } else {
            let index = random_index(self.flashcards.len());
            let card = self.pick_card(index);
            assert(card@ == self@.flashcards[index as int]);
            card
        }
    }

    /// The asteroid that `draw` describes at the game's level.
    pub fn make_candidate(&self, draw: &AsteroidDraw) -> (asteroid: Asteroid)
        ensures
            asteroid@ == self@.candidate(*draw),
    {
        let x: i32 = SPAWN_LEFT + scale(draw.x, SPAWN_RANGE) as i32;
        let y: i32 = SPAWN_HEIGHT + scale(draw.jitter, SPAWN_JITTER) as i32;
        let rotation = scale(draw.rotation, FULL_TURN);
        let flashcard = self.pick_card(draw.card);
        let red = is_red(draw.hazard, self.level);
        Asteroid::new(x, y, ASTEROID_SIZE, rotation, flashcard, red)
    }

    /// Gives `asteroid` a place among the asteroids, unless its footprint
    /// overlaps that of one of them.
    pub fn place(&mut self, asteroid: Asteroid)
        ensures
            final(self)@ == old(self)@.placed(asteroid@),
    {
        if !intersects_another_asteroid(&asteroid, &self.asteroids) {
            self.asteroids.push(asteroid);
            assert(self@.asteroids =~= old(self)@.asteroids.push(asteroid@));
        }
    }

    /// Lets `dt` pass for the spawn timer and says whether a wave is due.
    pub fn tick_spawn_timer(&mut self, dt: u64) -> (due: bool)
        ensures
            due == old(self)@.spawn_due(dt),
            final(self)@ == old(self)@.spawn_ticked(dt),
    {
        if self.asteroids_until_next_level == 0 {
            return false;
        }
        if self.asteroid_spawn_timer > dt {
            self.asteroid_spawn_timer = self.asteroid_spawn_timer - dt;
            return false;
        }
        self.asteroid_spawn_timer = self.spawn_interval;
        true
    }

    /// Brings the wave that `draws` describes.
    pub fn spawn_wave(&mut self, draws: &SpawnDraws)
        ensures
            final(self)@ == old(self)@.wave(*draws),
    {
        if draws.extra {
            let asteroid = self.make_candidate(&draws.extra_asteroid);
            self.place(asteroid);
        }
        if draws.third % THIRD_ASTEROID_ODDS == 0 && self.level >= THIRD_ASTEROID_LEVEL {
            let asteroid = self.make_candidate(&draws.third_asteroid);
            self.place(asteroid);
        }
        let asteroid = self.make_candidate(&draws.wave_asteroid);
        self.place(asteroid);
    }

    /// The spawn controller with chance taken out: lets `dt` pass and, if
    /// a wave is due, brings the one that `draws` describes.
    ///
    /// Nothing happens once the quota is used up. Else the spawn timer
    /// runs; when it runs out it starts over at the spawn interval and a
    /// wave comes: the asteroid that every wave brings, before it an
    /// additional one if `draws.extra` says so, and a third where the
    /// level allows it and `draws.third` says so. Each is left out if its
    /// footprint overlaps that of an asteroid already there.
    pub fn spawn_asteroid_with(&mut self, dt: u64, draws: &SpawnDraws)
        ensures
            final(self)@ == old(self)@.spawned(dt, *draws),
    {
        if self.tick_spawn_timer(dt) {
            self.spawn_wave(draws);
        }
    }

    /// The spawn controller: lets `dt` pass and, if a wave is due, brings
    /// one that chance describes.
    pub fn spawn_asteroid(&mut self, dt: u64)
        ensures
            exists|draws: SpawnDraws|
                draws.fits(old(self)@.flashcards.len()) && final(self)@ == old(self)@.spawned(
                    dt,
                    draws,
                ),
    {
        if self.tick_spawn_timer(dt) {
            let draws = SpawnDraws::random(self.flashcards.len());
            self.spawn_wave(&draws);
            assert(draws.fits(old(self)@.flashcards.len()) && self@ == old(self)@.spawned(
                dt,
                draws,
            ));
        } else {
            let ghost draws = SpawnDraws::still();
            assert(draws.fits(old(self)@.flashcards.len()) && self@ == old(self)@.spawned(
                dt,
                draws,
            ));
        }
    }
}

} // verus!

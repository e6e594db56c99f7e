//! The things that move on the canvas: asteroids and explosions.

use vstd::prelude::*;
use crate::flashcards::{Flashcard, FlashcardView};
use crate::units::{CANVAS_H, FULL_TURN, SECOND};

verus! {

/// Angle by which an asteroid turns in a second: an eighth of a turn.
pub const TURN_RATE: u64 = 45_000;

/// A rectangle on the canvas, given by its centre and its extent.
#[derive(Clone, Copy, Debug, PartialEq, Eq, Structural)]
pub struct Sprite2D {
    pub x: i32,
    pub y: i32,
    pub width: i32,
    pub height: i32,
}

impl Sprite2D {
    /// The sprite centred at (`spritex`, `spritey`), `w` wide and `h` high.
    pub fn new(spritex: i32, spritey: i32, w: i32, h: i32) -> (sprite: Self)
        ensures
            sprite == (Sprite2D { x: spritex, y: spritey, width: w, height: h }),
    {
        Sprite2D { x: spritex, y: spritey, width: w, height: h }
    }
}

/// Where a centre at height `y` stands after falling for `dt` at `speed`
/// length units per second; the fall stops at the lowest height there is.
pub open spec fn fallen(y: i32, dt: u64, speed: u32) -> i32 {
    let drop = speed as int * dt as int / SECOND as int;
    if y - drop < i32::MIN {
        i32::MIN
    } else {
        (y - drop) as i32
    }
}

/// The angle `rotation` after turning for `dt`, within one full turn.
pub open spec fn turned(rotation: u32, dt: u64) -> u32 {
    ((rotation as int + TURN_RATE as int * dt as int / SECOND as int) % FULL_TURN as int) as u32
}

/// An asteroid as the contracts see it.
pub ghost struct AsteroidView {
    pub sprite: Sprite2D,
    pub rotation: u32,
    pub is_red: bool,
    pub deleted: bool,
    pub destroyed: bool,
    pub flashcard: FlashcardView,
}

impl AsteroidView {
    /// The centre is below the bottom edge of the canvas.
    pub open spec fn at_bottom(self) -> bool {
        2 * self.sprite.y < -(CANVAS_H as int)
    }

    /// The whole sprite is above the top edge of the canvas.
    pub open spec fn above_top(self) -> bool {
        2 * self.sprite.y > CANVAS_H as int + self.sprite.height as int
    }

    /// Neither answered nor flagged for removal: it still threatens.
    pub open spec fn active(self) -> bool {
        !self.destroyed && !self.deleted
    }

    /// The asteroid after `dt` of falling at `speed` and turning; one that
    /// has passed the bottom edge is flagged for removal.
    pub open spec fn moved(self, dt: u64, speed: u32) -> AsteroidView {
        let y = fallen(self.sprite.y, dt, speed);
        AsteroidView {
            sprite: Sprite2D { y, ..self.sprite },
            rotation: turned(self.rotation, dt),
            deleted: self.deleted || 2 * y < -(CANVAS_H as int),
            ..self
        }
    }
}

/// A falling rock that carries one flashcard's question.
///
/// `deleted` marks it for removal at the next sweep; `destroyed` says that
/// the reason is a correct answer. `is_red` marks the hazardous kind.
#[derive(Debug)]
pub struct Asteroid {
    pub sprite: Sprite2D,
    pub rotation: u32,
    pub is_red: bool,
    pub deleted: bool,
    pub destroyed: bool,
    pub flashcard: Flashcard,
}

impl View for Asteroid {
    type V = AsteroidView;

    open spec fn view(&self) -> AsteroidView {
        AsteroidView {
            sprite: self.sprite,
            rotation: self.rotation,
            is_red: self.is_red,
            deleted: self.deleted,
            destroyed: self.destroyed,
            flashcard: self.flashcard@,
        }
    }
}

impl Clone for Asteroid {
    fn clone(&self) -> (a: Self)
        ensures
            a == *self,
    {
        Asteroid {
            sprite: self.sprite,
            rotation: self.rotation,
            is_red: self.is_red,
            deleted: self.deleted,
            destroyed: self.destroyed,
            flashcard: self.flashcard.clone(),
        }
    }
}

/// The views of a sequence of asteroids, in order.
pub open spec fn asteroid_views(s: Seq<Asteroid>) -> Seq<AsteroidView> {
    Seq::new(s.len(), |i: int| s[i]@)
}

impl Asteroid {
    /// A square asteroid of side `sz` centred at (`x`, `y`), turned by `r`,
    /// carrying `card`; hazardous if `red`. It starts unflagged.
    pub fn new(x: i32, y: i32, sz: i32, r: u32, card: Flashcard, red: bool) -> (a: Self)
        ensures
            a@ == (AsteroidView {
                sprite: Sprite2D { x, y, width: sz, height: sz },
                rotation: r,
                is_red: red,
                deleted: false,
                destroyed: false,
                flashcard: card@,
            }),
    {
        Asteroid {
            sprite: Sprite2D::new(x, y, sz, sz),
            rotation: r,
            is_red: red,
            deleted: false,
            destroyed: false,
            flashcard: card,
        }
    }

    /// Whether the centre has passed the bottom edge of the canvas.
    pub fn at_bottom(&self) -> (b: bool)
        ensures
            b == self@.at_bottom(),
    {
        2 * (self.sprite.y as i64) < -(CANVAS_H as i64)
    }

    /// Whether the asteroid is still wholly above the top edge.
    pub fn above_top(&self) -> (b: bool)
        ensures
            b == self@.above_top(),
    {
        2 * (self.sprite.y as i64) > CANVAS_H as i64 + self.sprite.height as i64
    }

    /// Lets the asteroid fall and turn for `dt`, at `speed` length units
    /// per second, and flags it for removal once it is past the bottom.
    pub fn update(&mut self, dt: u64, speed: u32)
        ensures
            final(self)@ == old(self)@.moved(dt, speed),
    {
        assert(speed as int * dt as int <= 0xFFFF_FFFF * 0xFFFF_FFFF_FFFF_FFFF) by (nonlinear_arith)
            requires
                0 <= speed <= 0xFFFF_FFFF,
                0 <= dt <= 0xFFFF_FFFF_FFFF_FFFF,
        ;
        let drop: u128 = speed as u128 * dt as u128 / SECOND as u128;
        let room: u128 = (self.sprite.y as i64 - i32::MIN as i64) as u128;
        if drop > room {
            self.sprite.y = i32::MIN;
        } else {
            self.sprite.y = (self.sprite.y as i64 - drop as i64) as i32;
        }
        assert(TURN_RATE as int * dt as int <= 45_000 * 0xFFFF_FFFF_FFFF_FFFF) by (nonlinear_arith)
            requires
                TURN_RATE == 45_000,
                0 <= dt <= 0xFFFF_FFFF_FFFF_FFFF,
        ;
        let turn: u128 = TURN_RATE as u128 * dt as u128 / SECOND as u128;
        self.rotation = ((self.rotation as u128 + turn) % FULL_TURN as u128) as u32;
        if self.at_bottom() {
            self.deleted = true;
        }
    }
}

/// The burst left where an asteroid went; `time` is its age.
#[derive(Clone, Copy, Debug, PartialEq, Eq, Structural)]
pub struct Explosion {
    pub x: i32,
    pub y: i32,
    pub time: u64,
}

impl Explosion {
    /// The explosion after `dt` more has passed; its age stops at the
    /// largest time there is.
    pub open spec fn aged(self, dt: u64) -> Explosion {
        Explosion { time: self.time.saturating_add(dt), ..self }
    }

    /// A fresh explosion at (`posx`, `posy`).
    pub fn new(posx: i32, posy: i32) -> (e: Self)
        ensures
            e == (Explosion { x: posx, y: posy, time: 0 }),
    {
        Explosion { x: posx, y: posy, time: 0 }
    }

    /// Ages the explosion by `dt`.
    pub fn update(&mut self, dt: u64)
        ensures
            *final(self) == old(self).aged(dt),
    {
        self.time = self.time.saturating_add(dt);
    }
}

} // verus!

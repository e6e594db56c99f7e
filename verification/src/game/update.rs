//! What a frame does to the game: explosions age, flagged asteroids are
//! swept, a wave may come, asteroids fall, the level may end and the log
//! of misses moves on.

use vstd::prelude::*;
use crate::game::audio::Sfx;
use crate::game::difficulty::{asteroid_speed, calculate_asteroid_speed};
use crate::game::spawn::SpawnDraws;
use crate::game::sprite::{asteroid_views, Asteroid, AsteroidView, Explosion};
use crate::game::{Game, GameView, DAMAGE_ANIMATION_LENGTH};
use crate::log::{log_views, LogItem, LogItemView, MESSAGE_DURATION};

verus! {

/// An explosion is gone once it is this old.
pub const EXPLOSION_LIFETIME: u64 = 1_000_000;

/// The log never shows more reminders than this.
pub const MAX_LOG_LEN: usize = 16;

/// The explosions of `s` after `dt` more, without those that have reached
/// the end of their lifetime.
pub open spec fn aged_explosions(s: Seq<Explosion>, dt: u64) -> Seq<Explosion> {
    s.map_values(|e: Explosion| e.aged(dt)).filter(|e: Explosion| e.time < EXPLOSION_LIFETIME)
}

/// Taking one more explosion into account keeps it if it is young enough.
pub proof fn lemma_aged_explosions_push(s: Seq<Explosion>, e: Explosion, dt: u64)
    ensures
        aged_explosions(s.push(e), dt) == if e.aged(dt).time < EXPLOSION_LIFETIME {
            aged_explosions(s, dt).push(e.aged(dt))
        } else {
            aged_explosions(s, dt)
        },
{
    reveal(Seq::filter);
    let f = |e: Explosion| e.aged(dt);
    assert(s.push(e).map_values(f) =~= s.map_values(f).push(e.aged(dt)));
    assert(s.map_values(f).push(e.aged(dt)).drop_last() =~= s.map_values(f));
}

/// Every asteroid of `s` after `dt` of falling at `speed` and turning.
pub open spec fn moved_all(s: Seq<AsteroidView>, dt: u64, speed: u32) -> Seq<AsteroidView> {
    Seq::new(s.len(), |i: int| s[i].moved(dt, speed))
}

/// The log after `dt` passed for it. Only the reminder at the head ages.
/// When its time has run out, or the log is over its maximum, the head
/// leaves, and after it as many as the log is still over its maximum; the
/// new head then gets its full duration.
pub open spec fn log_updated(log: Seq<LogItemView>, dt: u64) -> Seq<LogItemView> {
    if log.len() == 0 {
        log
    } else if log[0].aged(dt).can_delete() || log.len() > MAX_LOG_LEN {
        let leaving = if log.len() - 1 > MAX_LOG_LEN {
            log.len() - MAX_LOG_LEN
        } else {
            1
        };
        let rest = log.skip(leaving);
        if rest.len() > 0 {
            rest.update(0, rest[0].rewound())
        } else {
            rest
        }
    } else {
        log.update(0, log[0].aged(dt))
    }
}

impl GameView {
    /// The asteroid `a` is counted as a miss: it has passed the bottom
    /// edge while health was left.
    pub open spec fn misses(self, a: AsteroidView) -> bool {
        a.at_bottom() && self.health > 0
    }

    /// Health after the asteroid `a` was removed: a miss costs one health,
    /// and all of it if the asteroid was hazardous.
    pub open spec fn health_without(self, a: AsteroidView) -> u32 {
        if !self.misses(a) {
            self.health
        } else if a.is_red {
            0
        } else {
            (self.health - 1) as u32
        }
    }

    /// The asteroid `a` leaves an explosion: it was answered or has passed
    /// the bottom edge.
    pub open spec fn bursts(a: AsteroidView) -> bool {
        a.at_bottom() || a.destroyed
    }

    /// The game after the flagged asteroid `a` was removed. A miss is
    /// logged and costs health, and starts the damage animation if health
    /// is left. An asteroid that bursts leaves an explosion where it was,
    /// and its sound is asked for.
    pub open spec fn removed(self, a: AsteroidView) -> GameView {
        GameView {
            health: self.health_without(a),
            log: if self.misses(a) {
                self.log.push(LogItemView { timer: MESSAGE_DURATION, flashcard: a.flashcard })
            } else {
                self.log
            },
            damage_animation_timer: if self.misses(a) && self.health_without(a) > 0 {
                DAMAGE_ANIMATION_LENGTH
            } else {
                self.damage_animation_timer
            },
            explosions: if Self::bursts(a) {
                self.explosions.push(Explosion { x: a.sprite.x, y: a.sprite.y, time: 0 })
            } else {
                self.explosions
            },
            audio: if Self::bursts(a) {
                self.audio.played(Sfx::Explosion)
            } else {
                self.audio
            },
            ..self
        }
    }

    /// The game after the sweep has dealt with `a`: an asteroid that is
    /// not flagged stays, a flagged one is removed.
    pub open spec fn swept_one(self, a: AsteroidView) -> GameView {
        if a.deleted {
            self.removed(a)
        } else {
            GameView { asteroids: self.asteroids.push(a), ..self }
        }
    }

    /// The game after the sweep has dealt with the asteroids of `s`, one
    /// after another.
    pub open spec fn swept_through(self, s: Seq<AsteroidView>) -> GameView
        decreases s.len(),
    {
        if s.len() == 0 {
            self
        } else {
            self.swept_through(s.drop_last()).swept_one(s.last())
        }
    }

    /// The game after the sweep: it has dealt with every asteroid, in
    /// order, and those that were not flagged are the asteroids now.
    pub open spec fn swept(self) -> GameView {
        GameView { asteroids: Seq::empty(), ..self }.swept_through(self.asteroids)
    }

    /// The game after the first part of a frame: the clock has moved, the
    /// animations have run on (down to 0), the explosions have aged and
    /// the flagged asteroids are swept.
    pub open spec fn frame_begun(self, dt: u64) -> GameView {
        GameView {
            time: self.time.saturating_add(dt),
            levelup_animation_timer: self.levelup_animation_timer.saturating_sub(dt),
            damage_animation_timer: self.damage_animation_timer.saturating_sub(dt),
            explosions: aged_explosions(self.explosions, dt),
            ..self
        }.swept()
    }

    /// The game after every asteroid fell and turned for `dt`, at the
    /// speed of the level.
    pub open spec fn asteroids_moved(self, dt: u64) -> GameView {
        GameView {
            asteroids: moved_all(self.asteroids, dt, asteroid_speed(self.level) as u32),
            ..self
        }
    }

    /// The game after `dt` passed for the log of misses.
    pub open spec fn log_moved(self, dt: u64) -> GameView {
        GameView { log: log_updated(self.log, dt), ..self }
    }

    /// The game after the last part of a frame: the asteroids have moved,
    /// the level has ended if it was done, and the log has moved on.
    pub open spec fn frame_ended(self, dt: u64) -> GameView {
        self.asteroids_moved(dt).advanced().log_moved(dt)
    }

    /// The game after a frame of `dt`, with `draws` for the wave if one is
    /// due. Once no health is left after the sweep, the rest of the frame
    /// does not happen.
    pub open spec fn updated(self, dt: u64, draws: SpawnDraws) -> GameView {
        let begun = self.frame_begun(dt);
        if begun.game_over() {
            begun
        } else {
            begun.spawned(dt, draws).frame_ended(dt)
        }
    }
}

/// The sweep leaves the pool of cards alone.
pub proof fn lemma_swept_keeps_cards(game: GameView, s: Seq<AsteroidView>)
    ensures
        game.swept_through(s).flashcards == game.flashcards,
    decreases s.len(),
{
    if s.len() > 0 {
        lemma_swept_keeps_cards(game, s.drop_last());
    }
}

/// The first part of a frame leaves the pool of cards alone.
pub proof fn lemma_frame_begun_keeps_cards(game: GameView, dt: u64)
    ensures
        game.frame_begun(dt).flashcards == game.flashcards,
{
    let timed = GameView {
        time: game.time.saturating_add(dt),
        levelup_animation_timer: game.levelup_animation_timer.saturating_sub(dt),
        damage_animation_timer: game.damage_animation_timer.saturating_sub(dt),
        explosions: aged_explosions(game.explosions, dt),
        ..game
    };
    lemma_swept_keeps_cards(GameView { asteroids: Seq::empty(), ..timed }, timed.asteroids);
}

impl Game {
    /// Ages the explosions by `dt` and drops those that have reached the
    /// end of their lifetime.
    pub fn update_explosions(&mut self, dt: u64)
        ensures
            final(self)@ == (GameView {
                explosions: aged_explosions(old(self)@.explosions, dt),
                ..old(self)@
            }),
    {
        let mut kept: Vec<Explosion> = Vec::new();
        let mut i: usize = 0;
        let ghost all = self.explosions@;
        proof {
            reveal(Seq::filter);
            assert(all.take(0) =~= Seq::empty());
            assert(aged_explosions(Seq::empty(), dt) =~= Seq::empty());
        }
        while i < self.explosions.len()
            invariant
                i <= self.explosions.len(),
                all == self.explosions@,
                kept@ == aged_explosions(all.take(i as int), dt),
            decreases self.explosions.len() - i,
        {
            let mut explosion = self.explosions[i];
            explosion.update(dt);
            proof {
                assert(all.take(i + 1) =~= all.take(i as int).push(all[i as int]));
                lemma_aged_explosions_push(all.take(i as int), all[i as int], dt);
            }
            if explosion.time < EXPLOSION_LIFETIME {
                kept.push(explosion);
            }
            i = i + 1;
        }
        assert(all.take(i as int) =~= all);
        self.explosions = kept;
    }

    /// Sweeps the asteroids: those that are not flagged stay, in order.
    /// Each flagged one is removed. If it has passed the bottom edge while
    /// health was left, it is logged as a miss and costs one health, or
    /// all of it if it was hazardous; if health is left after that, the
    /// damage animation starts. If it has passed the bottom edge or was
    /// answered, it leaves an explosion and the explosion sound is asked
    /// for.
    pub fn delete_asteroids(&mut self)
        ensures
            final(self)@ == old(self)@.swept(),
    {
        let mut keep: Vec<Asteroid> = Vec::new();
        let mut i: usize = 0;
        let ghost all = self@.asteroids;
        let ghost start = GameView { asteroids: Seq::empty(), ..self@ };
        proof {
            assert(all.take(0) =~= Seq::empty());
            assert(asteroid_views(keep@) =~= Seq::empty());
        }
        while i < self.asteroids.len()
            invariant
                i <= self.asteroids.len(),
                all == asteroid_views(self.asteroids@),
                (GameView { asteroids: asteroid_views(keep@), ..self@ }) == start.swept_through(
                    all.take(i as int),
                ),
            decreases self.asteroids.len() - i,
        {
            let asteroid = self.asteroids[i].clone();
            let ghost before = GameView { asteroids: asteroid_views(keep@), ..self@ };
            proof {
                assert(all.take(i + 1).drop_last() =~= all.take(i as int));
                assert(all.take(i + 1).last() == asteroid@);
            }
            if !asteroid.deleted {
                keep.push(asteroid);
                assert(asteroid_views(keep@) =~= before.asteroids.push(all[i as int]));
            } else {
                let at_bottom = asteroid.at_bottom();
                if at_bottom || asteroid.destroyed {
                    self.explosions.push(Explosion::new(asteroid.sprite.x, asteroid.sprite.y));
                    self.audio.play(Sfx::Explosion);
                }
                if at_bottom && self.health > 0 {
                    self.health -= 1;
                    if asteroid.is_red {
                        self.health = 0;
                    }
                    if self.health > 0 {
                        self.damage_animation_timer = DAMAGE_ANIMATION_LENGTH;
                    }
                    self.log.push_back(LogItem::new(asteroid.flashcard));
                    assert(log_views(self.log@) =~= before.log.push(
                        LogItemView { timer: MESSAGE_DURATION, flashcard: all[i as int].flashcard },
                    ));
                }
            }
            i = i + 1;
        }
        assert(all.take(i as int) =~= all);
        self.asteroids = keep;
    }

    /// Lets every asteroid fall and turn for `dt`, at the speed of the
    /// level; those that pass the bottom edge are flagged.
    pub fn move_asteroids(&mut self, dt: u64)
        ensures
            final(self)@ == old(self)@.asteroids_moved(dt),
    {
        let speed = calculate_asteroid_speed(self.level);
        let ghost all = self@.asteroids;
        let mut i: usize = 0;
        while i < self.asteroids.len()
            invariant
                i <= self.asteroids.len(),
                self.asteroids.len() == all.len(),
                speed == asteroid_speed(self.level),
                self@ == (GameView { asteroids: self@.asteroids, ..old(self)@ }),
                forall|k: int| 0 <= k < i ==> self.asteroids[k]@ == all[k].moved(dt, speed),
                forall|k: int| i <= k < all.len() ==> self.asteroids[k]@ == all[k],
            decreases self.asteroids.len() - i,
        {
            self.asteroids[i].update(dt, speed);
            i = i + 1;
        }
        assert(self@.asteroids =~= moved_all(all, dt, speed));
    }

    /// Lets `dt` pass for the log of misses. Only the reminder at the head
    /// ages. When its time has run out, or the log is over its maximum,
    /// the head leaves, and after it as many as the log is still over its
    /// maximum; the new head then gets its full duration.
    pub fn update_log(&mut self, dt: u64)
        ensures
            final(self)@ == old(self)@.log_moved(dt),
            final(self)@.log.len() <= MAX_LOG_LEN,
            final(self)@.log.len() <= old(self)@.log.len(),
    {
        let ghost log = self@.log;
        let ghost whole = self.log@;
        match self.log.pop_front() {
            None => {
                assert(self@.log =~= log);
            },
            Some(head) => {
                let mut head = head;
                head.update(dt);
                assert(head@ == log[0].aged(dt));
                assert(log_views(self.log@) =~= log.skip(1)) by {
                    assert forall|k: int| 0 <= k < self.log@.len() implies log_views(self.log@)[k]
                        == log.skip(1)[k] by {
                        assert(self.log@[k] == whole[k + 1]);
                    }
                }
                if head.can_delete() || self.log.len() >= MAX_LOG_LEN {
                    while self.log.len() > MAX_LOG_LEN
                        invariant
                            self@ == (GameView { log: self@.log, ..old(self)@ }),
                            self.log.len() < log.len(),
                            self.log.len() >= MAX_LOG_LEN || self.log.len() == log.len() - 1,
                            log_views(self.log@) == log.skip(log.len() - self.log.len()),
                        decreases self.log.len(),
                    {
                        let ghost prev = self.log@;
                        let gone = self.log.pop_front();
                        assert(log_views(self.log@) =~= log.skip(log.len() - prev.len() + 1)) by {
                            assert forall|k: int| 0 <= k < self.log@.len() implies log_views(
                                self.log@,
                            )[k] == log.skip(log.len() - prev.len() + 1)[k] by {
                                assert(self.log@[k] == prev[k + 1]);
                                assert(log_views(prev)[k + 1] == prev[k + 1]@);
                            }
                        }
                    }
                    let ghost rest = log_views(self.log@);
                    let ghost tail = self.log@;
                    match self.log.pop_front() {
                        None => {
                            assert(self@.log =~= rest);
                        },
                        Some(first) => {
                            let mut first = first;
                            first.reset_timer();
                            self.log.push_front(first);
                            assert(self@.log =~= rest.update(0, rest[0].rewound())) by {
                                assert forall|k: int| 0 <= k < self.log@.len() implies self@.log[k]
                                    == rest.update(0, rest[0].rewound())[k] by {
                                    if k > 0 {
                                        assert(self.log@[k] == tail[k]);
                                    }
                                }
                            }
                        },
                    }
                    assert(self@.log == log_updated(log, dt));
                } else {
                    self.log.push_front(head);
                    assert(self@.log =~= log.update(0, log[0].aged(dt))) by {
                        assert forall|k: int| 0 <= k < self.log@.len() implies self@.log[k]
                            == log.update(0, log[0].aged(dt))[k] by {
                            if k > 0 {
                                assert(self.log@[k] == whole[k]);
                            }
                        }
                    }
                }
            },
        }
    }

    /// The first part of a frame: the clock moves, the animations run on,
    /// the explosions age and the flagged asteroids are swept.
    pub fn begin_frame(&mut self, dt: u64)
        ensures
            final(self)@ == old(self)@.frame_begun(dt),
    {
        self.time = self.time.saturating_add(dt);
        self.levelup_animation_timer = self.levelup_animation_timer.saturating_sub(dt);
        self.damage_animation_timer = self.damage_animation_timer.saturating_sub(dt);
        self.update_explosions(dt);
        self.delete_asteroids();
    }

    /// The last part of a frame: the asteroids move, the level ends if it
    /// is done, and the log moves on.
    pub fn end_frame(&mut self, dt: u64)
        ensures
            final(self)@ == old(self)@.frame_ended(dt),
    {
        self.move_asteroids(dt);
        self.advance_to_next_level();
        self.update_log(dt);
    }

    /// A frame of `dt` with chance taken out: `draws` describes the wave,
    /// if one is due.
    ///
    /// The clock moves, the animations run on, the explosions age and the
    /// flagged asteroids are swept. If no health is left then, the frame
    /// ends there. Else the spawn controller has its turn, the asteroids
    /// move, the level ends if it is done and the log moves on.
    pub fn update_with(&mut self, dt: u64, draws: &SpawnDraws)
        ensures
            final(self)@ == old(self)@.updated(dt, *draws),
    {
        self.begin_frame(dt);
        if self.game_over() {
            return ;
        }
        self.spawn_asteroid_with(dt, draws);
        self.end_frame(dt);
    }

    /// A frame of `dt`; chance describes the wave, if one is due, and
    /// every card it draws is one of the pool.
    pub fn update(&mut self, dt: u64)
        ensures
            exists|draws: SpawnDraws|
                draws.fits(old(self)@.flashcards.len()) && final(self)@ == old(self)@.updated(
                    dt,
                    draws,
                ),
    {
        let ghost cards = self@.flashcards.len();
        self.begin_frame(dt);
        proof {
            lemma_frame_begun_keeps_cards(old(self)@, dt);
        }
        if self.game_over() {
            let ghost draws = SpawnDraws::still();
            assert(draws.fits(cards) && self@ == old(self)@.updated(dt, draws));
            return ;
        }
        let ghost begun = self@;
        self.spawn_asteroid(dt);
        let ghost draws = choose|draws: SpawnDraws|
            draws.fits(begun.flashcards.len()) && self@ == begun.spawned(dt, draws);
        self.end_frame(dt);
        assert(draws.fits(cards) && self@ == old(self)@.updated(dt, draws));
    }
}

} // verus!

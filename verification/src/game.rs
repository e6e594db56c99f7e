//! The falling-asteroid game: its state, the answer matcher and the
//! progression from level to level.

pub mod audio;
pub mod difficulty;
pub mod laws;
pub mod spawn;
pub mod sprite;
pub mod update;

use std::collections::VecDeque;
use vstd::prelude::*;
use crate::flashcards::{card_views, Flashcard, FlashcardView};
use crate::game::audio::{Sfx, SfxPlayer, SfxPlayerView};
use crate::game::laws::lemma_target_is_the_one;
use crate::game::difficulty::{
    asteroids_until_next,
    calculate_asteroids_until_next,
    calculate_spawn_interval,
    spawn_interval,
};
use crate::game::sprite::{asteroid_views, Asteroid, AsteroidView, Explosion};
use crate::learn::{is_shuffle, ChoiceDraws, LearnState, LearnView};
use crate::log::{log_views, LogItem, LogItemView};
use crate::units::{share, share_of, WHOLE};

verus! {

/// Health at the start of a game.
pub const DEFAULT_HEALTH: u32 = 5;

/// How long the level-up animation runs.
pub const LEVELUP_ANIMATION_LENGTH: u64 = 2_500_000;

/// How long the damage animation runs.
pub const DAMAGE_ANIMATION_LENGTH: u64 = 1_000_000;

/// Points for a destroyed asteroid, per level.
pub const POINTS: u64 = 100;

/// The screen that is shown; exactly one at a time.
#[derive(Clone, Copy, Debug, PartialEq, Eq, Structural)]
pub enum GameScreen {
    MainMenu,
    About,
    LoadFlashcards,
    Game,
    Learn,
}

/// The game as the contracts see it.
pub ghost struct GameView {
    pub audio: SfxPlayerView,
    pub window_w: i32,
    pub window_h: i32,
    pub asteroid_spawn_timer: u64,
    pub spawn_interval: u64,
    pub asteroids: Seq<AsteroidView>,
    pub explosions: Seq<Explosion>,
    pub time: u64,
    pub answer: Seq<char>,
    pub flashcards: Seq<FlashcardView>,
    pub health: u32,
    pub score: u64,
    pub level: u32,
    pub asteroids_until_next_level: u32,
    pub levelup_animation_timer: u64,
    pub damage_animation_timer: u64,
    pub log: Seq<LogItemView>,
    pub current_screen: GameScreen,
    pub selected_set_path: Seq<char>,
    pub learn_state: LearnView,
}

/// What the window reports to the game.
#[derive(Clone, Copy, Debug, PartialEq, Eq, Structural)]
pub enum InputEvent {
    /// The window has a new width and height.
    Resize(i32, i32),
    /// The enter key was pressed.
    Enter,
}

/// The level after `level`; the highest level there is has none.
pub open spec fn next_level(level: u32) -> u32 {
    if level < u32::MAX {
        (level + 1) as u32
    } else {
        level
    }
}

/// The asteroids of `s` that are not above the top edge, in order.
pub open spec fn on_screen_only(s: Seq<AsteroidView>) -> Seq<AsteroidView> {
    s.filter(|a: AsteroidView| !a.above_top())
}

/// No asteroid of `s` still threatens: each is answered or flagged.
pub open spec fn none_active(s: Seq<AsteroidView>) -> bool {
    forall|i: int| 0 <= i < s.len() ==> !(#[trigger] s[i]).active()
}

/// Taking one more asteroid into account keeps it if it is on the screen.
pub proof fn lemma_on_screen_only_push(s: Seq<AsteroidView>, a: AsteroidView)
    ensures
        on_screen_only(s.push(a)) == if a.above_top() {
            on_screen_only(s)
        } else {
            on_screen_only(s).push(a)
        },
{
    reveal(Seq::filter);
    assert(s.push(a).drop_last() =~= s);
}

impl GameView {
    /// A game as it is made: level 1, full health, no score, an empty
    /// canvas, no cards, sound on, the game screen up, nothing to learn.
    pub open spec fn fresh() -> GameView {
        GameView {
            audio: SfxPlayerView { muted: false, queued: Seq::empty() },
            window_w: 0,
            window_h: 0,
            asteroid_spawn_timer: 0,
            spawn_interval: spawn_interval(1) as u64,
            asteroids: Seq::empty(),
            explosions: Seq::empty(),
            time: 0,
            answer: Seq::empty(),
            flashcards: Seq::empty(),
            health: DEFAULT_HEALTH,
            score: 0,
            level: 1,
            asteroids_until_next_level: asteroids_until_next(1),
            levelup_animation_timer: 0,
            damage_animation_timer: 0,
            log: Seq::empty(),
            current_screen: GameScreen::Game,
            selected_set_path: Seq::empty(),
            learn_state: LearnView::seeded(Seq::empty(), Seq::empty(), Seq::empty()),
        }
    }

    /// A game as it begins, which keeps sound, window, cards, screen and
    /// clock of `self`.
    pub open spec fn restarted(self) -> GameView {
        GameView {
            asteroid_spawn_timer: 0,
            spawn_interval: spawn_interval(1) as u64,
            asteroids: Seq::empty(),
            explosions: Seq::empty(),
            answer: Seq::empty(),
            health: DEFAULT_HEALTH,
            score: 0,
            level: 1,
            asteroids_until_next_level: asteroids_until_next(1),
            levelup_animation_timer: 0,
            damage_animation_timer: 0,
            log: Seq::empty(),
            ..self
        }
    }

    /// No health is left.
    pub open spec fn game_over(self) -> bool {
        self.health == 0
    }

    /// Asteroid `i` is among the first `n`, is not above the top edge and
    /// carries the typed answer.
    pub open spec fn answers_within(self, n: int, i: int) -> bool {
        &&& 0 <= i < n <= self.asteroids.len()
        &&& !self.asteroids[i].above_top()
        &&& self.asteroids[i].flashcard.answer == self.answer
    }

    /// Asteroid `i` is the one that the typed answer hits among the first
    /// `n`: of those that carry the answer none is lower, and none that is
    /// as low comes earlier.
    pub open spec fn is_target_within(self, n: int, i: int) -> bool {
        &&& self.answers_within(n, i)
        &&& forall|j: int| #[trigger]
            self.answers_within(n, j) ==> {
                ||| self.asteroids[i].sprite.y < self.asteroids[j].sprite.y
                ||| (self.asteroids[i].sprite.y == self.asteroids[j].sprite.y && i <= j)
            }
    }

    /// Asteroid `i` is the one that the typed answer hits.
    pub open spec fn is_target(self, i: int) -> bool {
        self.is_target_within(self.asteroids.len() as int, i)
    }

    /// The asteroid that the typed answer hits, if there is one.
    pub open spec fn target(self) -> Option<int> {
        if exists|i: int| self.is_target(i) {
            Some(choose|i: int| self.is_target(i))
        } else {
            None
        }
    }

    /// Asteroid `i` is among the first `n`, hazardous and not above the top
    /// edge.
    pub open spec fn hazard_at(self, n: int, i: int) -> bool {
        &&& 0 <= i < n <= self.asteroids.len()
        &&& !self.asteroids[i].above_top()
        &&& self.asteroids[i].is_red
    }

    /// Some hazardous asteroid is on the screen.
    pub open spec fn hazard_on_screen(self) -> bool {
        exists|i: int| self.hazard_at(self.asteroids.len() as int, i)
    }

    /// Points for asteroid `i`: a hundred per level, doubled for a hazard.
    pub open spec fn points_for(self, i: int) -> int {
        if self.asteroids[i].is_red {
            2 * POINTS * self.level
        } else {
            POINTS * self.level
        }
    }

    /// The game after asteroid `i` was answered: it is flagged as
    /// destroyed, its points are scored and the quota drops by one. Score
    /// stops at the highest there is, quota at 0.
    pub open spec fn hit(self, i: int) -> GameView {
        GameView {
            asteroids: self.asteroids.update(
                i,
                AsteroidView { deleted: true, destroyed: true, ..self.asteroids[i] },
            ),
            score: if self.score + self.points_for(i) > u64::MAX {
                u64::MAX
            } else {
                (self.score + self.points_for(i)) as u64
            },
            asteroids_until_next_level: if self.asteroids_until_next_level > 0 {
                (self.asteroids_until_next_level - 1) as u32
            } else {
                0
            },
            ..self
        }
    }

    /// The game after a wrong answer under a hazard: one health less, and
    /// the damage animation if any health is left.
    pub open spec fn penalized(self) -> GameView {
        let health: u32 = if self.health > 0 {
            (self.health - 1) as u32
        } else {
            0
        };
        GameView {
            health,
            damage_animation_timer: if health > 0 {
                DAMAGE_ANIMATION_LENGTH
            } else {
                self.damage_animation_timer
            },
            ..self
        }
    }

    /// The game after the typed answer was submitted. Nothing happens when
    /// the game is over or nothing was typed. Else the answer hits its
    /// target; where it has none and a hazard is on the screen, it costs
    /// health. Then the typed answer is gone.
    pub open spec fn answered(self) -> GameView {
        if self.game_over() || self.answer.len() == 0 {
            self
        } else {
            let after = match self.target() {
                Some(i) => self.hit(i),
                None => if self.hazard_on_screen() {
                    self.penalized()
                } else {
                    self
                },
            };
            GameView { answer: Seq::empty(), ..after }
        }
    }

    /// The game with the learn screen up and a fresh session over the
    /// pool, with the given queues and the choices that `draws` describes
    /// for the first card.
    pub open spec fn learning(
        self,
        mcq: Seq<FlashcardView>,
        frq: Seq<FlashcardView>,
        draws: ChoiceDraws,
    ) -> GameView {
        GameView {
            learn_state: LearnView::seeded(self.flashcards, mcq, frq).with_choices(draws),
            current_screen: GameScreen::Learn,
            ..self
        }
    }

    /// The game after the enter key was pressed. On the learn screen the
    /// typed answer goes to the scheduler and is cleared. Elsewhere it is
    /// submitted to the game, and the progression check follows at once.
    pub open spec fn entered(self) -> GameView {
        if self.current_screen == GameScreen::Learn {
            GameView {
                learn_state: self.learn_state.submitted_with(self.answer),
                answer: Seq::empty(),
                ..self
            }
        } else {
            self.answered().advanced()
        }
    }

    /// The game after the window reported `event`.
    pub open spec fn handled(self, event: InputEvent) -> GameView {
        match event {
            InputEvent::Resize(w, h) => GameView { window_w: w, window_h: h, ..self },
            InputEvent::Enter => self.entered(),
        }
    }

    /// The game after the window reported `events`, one after another.
    pub open spec fn processed(self, events: Seq<InputEvent>) -> GameView
        decreases events.len(),
    {
        if events.len() == 0 {
            self
        } else {
            self.processed(events.drop_last()).handled(events.last())
        }
    }

    /// The share of the level-up animation that has run: all of it while
    /// none is running.
    pub open spec fn levelup_animation_perc(self) -> nat {
        (WHOLE - share_of(self.levelup_animation_timer as nat, LEVELUP_ANIMATION_LENGTH as nat)) as nat
    }

    /// The share of the damage animation that is still to run.
    pub open spec fn damage_animation_perc(self) -> nat {
        share_of(self.damage_animation_timer as nat, DAMAGE_ANIMATION_LENGTH as nat)
    }

    /// The quota is used up and nothing on the screen still threatens.
    pub open spec fn level_done(self) -> bool {
        &&& !self.game_over()
        &&& self.asteroids_until_next_level == 0
        &&& none_active(on_screen_only(self.asteroids))
    }

    /// The game after the progression check. Nothing happens while the
    /// game is over or the quota is not used up. Else the asteroids above
    /// the top edge are dropped; if none of the others still threatens,
    /// the next level begins: quota and spawn interval are its own, the
    /// level-up animation starts and its sound is asked for.
    pub open spec fn advanced(self) -> GameView {
        if self.game_over() || self.asteroids_until_next_level != 0 {
            self
        } else if self.level_done() {
            let level = next_level(self.level);
            GameView {
                asteroids: on_screen_only(self.asteroids),
                level,
                asteroids_until_next_level: asteroids_until_next(level),
                spawn_interval: spawn_interval(level as nat) as u64,
                levelup_animation_timer: LEVELUP_ANIMATION_LENGTH,
                audio: self.audio.played(Sfx::LevelUp),
                ..self
            }
        } else {
            GameView { asteroids: on_screen_only(self.asteroids), ..self }
        }
    }
}

/// The whole state of the game.
pub struct Game {
    pub audio: SfxPlayer,
    pub window_w: i32,
    pub window_h: i32,
    /// Time until the next spawn.
    pub asteroid_spawn_timer: u64,
    /// Time between spawns at the current level.
    pub spawn_interval: u64,
    pub asteroids: Vec<Asteroid>,
    pub explosions: Vec<Explosion>,
    /// The clock: time played.
    pub time: u64,
    /// What the player has typed.
    pub answer: String,
    pub flashcards: Vec<Flashcard>,
    pub health: u32,
    pub score: u64,
    pub level: u32,
    /// Drops by one with each destroyed asteroid; at 0 the level ends.
    pub asteroids_until_next_level: u32,
    pub levelup_animation_timer: u64,
    pub damage_animation_timer: u64,
    pub log: VecDeque<LogItem>,
    pub current_screen: GameScreen,
    /// The flashcard set that is picked on the load screen.
    pub selected_set_path: String,
    pub learn_state: LearnState,
}

impl View for Game {
    type V = GameView;

    open spec fn view(&self) -> GameView {
        GameView {
            audio: self.audio@,
            window_w: self.window_w,
            window_h: self.window_h,
            asteroid_spawn_timer: self.asteroid_spawn_timer,
            spawn_interval: self.spawn_interval,
            asteroids: asteroid_views(self.asteroids@),
            explosions: self.explosions@,
            time: self.time,
            answer: self.answer@,
            flashcards: card_views(self.flashcards@),
            health: self.health,
            score: self.score,
            level: self.level,
            asteroids_until_next_level: self.asteroids_until_next_level,
            levelup_animation_timer: self.levelup_animation_timer,
            damage_animation_timer: self.damage_animation_timer,
            log: log_views(self.log@),
            current_screen: self.current_screen,
            selected_set_path: self.selected_set_path@,
            learn_state: self.learn_state@,
        }
    }
}

/// Keeps the window's new width and height.
pub fn handle_window_resize(gamestate: &mut Game, w: i32, h: i32)
    ensures
        final(gamestate)@ == (GameView { window_w: w, window_h: h, ..old(gamestate)@ }),
{
    gamestate.window_w = w;
    gamestate.window_h = h;
}

impl Game {
    /// A game as it begins: level 1, full health, no score, an empty
    /// canvas, no cards, sound on, the game screen up.
    pub fn new() -> (game: Self)
        ensures
            game@ == GameView::fresh(),
    {
        let game = Game {
            audio: SfxPlayer::init(),
            window_w: 0,
            window_h: 0,
            asteroid_spawn_timer: 0,
            spawn_interval: calculate_spawn_interval(1),
            asteroids: Vec::new(),
            explosions: Vec::new(),
            time: 0,
            answer: String::new(),
            flashcards: Vec::new(),
            health: DEFAULT_HEALTH,
            score: 0,
            level: 1,
            asteroids_until_next_level: calculate_asteroids_until_next(1),
            levelup_animation_timer: 0,
            damage_animation_timer: 0,
            log: VecDeque::new(),
            current_screen: GameScreen::Game,
            selected_set_path: String::new(),
            learn_state: LearnState::empty(),
        };
        assert(game@.asteroids =~= Seq::empty());
        assert(game@.explosions =~= Seq::empty());
        assert(game@.flashcards =~= Seq::empty());
        assert(game@.log =~= Seq::empty());
        game
    }

    /// Begins the game anew. Sound, window, cards, screen and clock stay.
    pub fn restart(&mut self)
        ensures
            final(self)@ == old(self)@.restarted(),
    {
        self.asteroid_spawn_timer = 0;
        self.asteroids.clear();
        self.explosions.clear();
        self.answer = String::new();
        self.health = DEFAULT_HEALTH;
        self.score = 0;
        self.level = 1;
        self.spawn_interval = calculate_spawn_interval(self.level);
        self.asteroids_until_next_level = calculate_asteroids_until_next(self.level);
        self.levelup_animation_timer = 0;
        self.damage_animation_timer = 0;
        self.log.clear();
        assert(self@.asteroids =~= Seq::empty());
        assert(self@.log =~= Seq::empty());
    }

    /// Whether the game is over: no health is left.
    pub fn game_over(&self) -> (over: bool)
        ensures
            over == self@.game_over(),
    {
        self.health == 0
    }

    /// Submits the typed answer.
    ///
    /// Does nothing when the game is over or nothing was typed. Else, of
    /// the asteroids not above the top edge that carry the answer, the
    /// lowest is flagged as destroyed (the earliest of them, where several
    /// are as low); it scores a hundred points per level, twice that if it
    /// was hazardous, and lowers the quota by one. Where no asteroid
    /// carries the answer and a hazardous one is on the screen, the answer
    /// costs one health, and starts the damage animation if health is
    /// left. In either case the typed answer is cleared.
    pub fn submit_answer(&mut self)
        ensures
            final(self)@ == old(self)@.answered(),
    {
        if self.game_over() || self.answer.as_str().is_empty() {
            return ;
        }
        let mut index: Option<usize> = None;
        let mut lowest_y: i32 = 0;
        let mut found_red = false;
        let mut i: usize = 0;
        while i < self.asteroids.len()
            invariant
                i <= self.asteroids.len(),
                match index {
                    Some(k) => self@.is_target_within(i as int, k as int) && lowest_y
                        == self.asteroids[k as int].sprite.y,
                    None => forall|j: int| !self@.answers_within(i as int, j),
                },
                found_red <==> exists|j: int| self@.hazard_at(i as int, j),
            decreases self.asteroids.len() - i,
        {
            let asteroid = &self.asteroids[i];
            let ghost before = i as int;
            if !asteroid.above_top() {
                if asteroid.is_red {
                    found_red = true;
                    assert(self@.hazard_at(before + 1, before));
                }
                if asteroid.flashcard.answer == self.answer {
                    let lower = match index {
                        Some(_) => lowest_y > asteroid.sprite.y,
                        None => true,
                    };
                    if lower {
                        lowest_y = asteroid.sprite.y;
                        index = Some(i);
                    }
                }
            }
            i = i + 1;
            proof {
                assert forall|j: int| #[trigger]
                    self@.answers_within(before + 1, j) implies j == before
                    || self@.answers_within(before, j) by {}
                assert forall|j: int| #[trigger]
                    self@.hazard_at(before + 1, j) implies j == before || self@.hazard_at(
                    before,
                    j,
                ) by {}
                assert forall|j: int| #[trigger]
                    self@.hazard_at(before, j) implies self@.hazard_at(before + 1, j) by {}
                assert forall|j: int| #[trigger]
                    self@.answers_within(before, j) implies self@.answers_within(
                    before + 1,
                    j,
                ) by {}
            }
        }
        match index {
            Some(k) => {
                proof {
                    lemma_target_is_the_one(self@, k as int);
                }
                let per_level: u64 = if self.asteroids[k].is_red {
                    2 * POINTS
                } else {
                    POINTS
                };
                assert(per_level * self.level <= 200 * 0xFFFF_FFFF) by (nonlinear_arith)
                    requires
                        per_level <= 200,
                        self.level <= 0xFFFF_FFFF,
                ;
                let gain: u64 = per_level * self.level as u64;
                self.asteroids[k].deleted = true;
                self.asteroids[k].destroyed = true;
                self.score = self.score.saturating_add(gain);
                if self.asteroids_until_next_level > 0 {
                    self.asteroids_until_next_level -= 1;
                }
            },
            None => {
                assert(old(self)@.target() is None);
                if found_red {
                    if self.health > 0 {
                        self.health -= 1;
                    }
                    if self.health > 0 {
                        self.damage_animation_timer = DAMAGE_ANIMATION_LENGTH;
                    }
                }
            },
        }
        self.answer = String::new();
        assert(self@.asteroids =~= old(self)@.answered().asteroids);
    }

    /// Checks whether the level is done, and begins the next if it is.
    ///
    /// Does nothing while the game is over or the quota is not used up.
    /// Else the asteroids above the top edge are dropped. If none of the
    /// others still threatens, the level rises by one (the highest level
    /// stays), quota and spawn interval become those of the new level, the
    /// level-up animation starts and the level-up sound is asked for.
    pub fn advance_to_next_level(&mut self)
        ensures
            final(self)@ == old(self)@.advanced(),
            final(self)@.level != old(self)@.level ==> old(self)@.level_done(),
            old(self)@.level_done() ==> final(self)@.level == next_level(old(self)@.level),
    {
        if self.game_over() || self.asteroids_until_next_level != 0 {
            return ;
        }
        let ghost all = self@.asteroids;
        let mut kept: Vec<Asteroid> = Vec::new();
        let mut any_active = false;
        let mut i: usize = 0;
        assert(all.take(0) =~= Seq::empty());
        assert(asteroid_views(kept@) =~= Seq::empty());
        proof {
            reveal(Seq::filter);
        }
        while i < self.asteroids.len()
            invariant
                i <= self.asteroids.len(),
                all == asteroid_views(self.asteroids@),
                asteroid_views(kept@) == on_screen_only(all.take(i as int)),
                any_active <==> !none_active(asteroid_views(kept@)),
            decreases self.asteroids.len() - i,
        {
            let asteroid = &self.asteroids[i];
            let ghost before = asteroid_views(kept@);
            proof {
                assert(all.take(i + 1) =~= all.take(i as int).push(all[i as int]));
                lemma_on_screen_only_push(all.take(i as int), all[i as int]);
            }
            if !asteroid.above_top() {
                if !(asteroid.destroyed || asteroid.deleted) {
                    any_active = true;
                }
                kept.push(asteroid.clone());
                assert(asteroid_views(kept@) =~= before.push(asteroid@));
                assert(asteroid_views(kept@)[before.len() as int] == asteroid@);
                assert forall|k: int| 0 <= k < before.len() implies before[k]
                    == #[trigger] asteroid_views(kept@)[k] by {}
                assert forall|k: int| 0 <= k < before.len() implies #[trigger] before[k]
                    == asteroid_views(kept@)[k] by {}
            }
            i = i + 1;
        }
        assert(all.take(i as int) =~= all);
        self.asteroids = kept;
        if !any_active {
            if self.level < u32::MAX {
                self.level += 1;
            }
            self.asteroids_until_next_level = calculate_asteroids_until_next(self.level);
            self.spawn_interval = calculate_spawn_interval(self.level);
            self.levelup_animation_timer = LEVELUP_ANIMATION_LENGTH;
            self.audio.play(Sfx::LevelUp);
        }
    }

    /// The enter key was pressed. On the learn screen the typed answer
    /// goes to the scheduler and is cleared. Elsewhere it is submitted to
    /// the game, and the progression check follows at once.
    pub fn press_enter(&mut self)
        ensures
            final(self)@ == old(self)@.entered(),
    {
        if self.current_screen == GameScreen::Learn {
            self.learn_state.submit(self.answer.as_str());
            self.answer = String::new();
        } else {
            self.submit_answer();
            self.advance_to_next_level();
        }
    }

    /// Takes in what the window reported, one event after another: a new
    /// size is kept, the enter key submits what was typed.
    pub fn process_events(&mut self, events: &Vec<InputEvent>)
        ensures
            final(self)@ == old(self)@.processed(events@),
    {
        let mut i: usize = 0;
        assert(events@.take(0) =~= Seq::empty());
        while i < events.len()
            invariant
                i <= events.len(),
                self@ == old(self)@.processed(events@.take(i as int)),
            decreases events.len() - i,
        {
            proof {
                assert(events@.take(i + 1).drop_last() =~= events@.take(i as int));
            }
            match events[i] {
                InputEvent::Resize(w, h) => handle_window_resize(self, w, h),
                InputEvent::Enter => self.press_enter(),
            }
            i = i + 1;
        }
        assert(events@.take(i as int) =~= events@);
    }

    /// The share of the level-up animation that has run, in millionths:
    /// all of it while none is running.
    pub fn levelup_animation_perc(&self) -> (done: u64)
        ensures
            done == self@.levelup_animation_perc(),
            done <= WHOLE,
    {
        WHOLE - share(self.levelup_animation_timer, LEVELUP_ANIMATION_LENGTH)
    }

    /// The share of the damage animation that is still to run, in
    /// millionths.
    pub fn damage_animation_perc(&self) -> (left: u64)
        ensures
            left == self@.damage_animation_perc(),
            left <= WHOLE,
    {
        share(self.damage_animation_timer, DAMAGE_ANIMATION_LENGTH)
    }

    /// Keeps the window's width and height.
    pub fn init_window_dimensions(&mut self, dimensions: (i32, i32))
        ensures
            final(self)@ == (GameView {
                window_w: dimensions.0,
                window_h: dimensions.1,
                ..old(self)@
            }),
    {
        let (w, h) = dimensions;
        self.window_w = w;
        self.window_h = h;
    }

    /// The clock: time played.
    pub fn time(&self) -> (now: u64)
        ensures
            now == self@.time,
    {
        self.time
    }

    /// Moves the clock by `dt` and nothing else; the clock stops at the
    /// largest time there is.
    pub fn update_time(&mut self, dt: u64)
        ensures
            final(self)@ == (GameView { time: old(self)@.time.saturating_add(dt), ..old(self)@ }),
    {
        self.time = self.time.saturating_add(dt);
    }

    /// The window's width and height.
    pub fn get_window_size(&self) -> (size: (i32, i32))
        ensures
            size == (self@.window_w, self@.window_h),
    {
        (self.window_w, self.window_h)
    }

    /// Brings the learn screen up with a fresh session over the pool: the
    /// multiple-choice queue holds the cards once, shuffled, the
    /// free-response queue holds them twice, a shuffle of them and then
    /// another, and the first card has its choices. The session that was
    /// there before is gone.
    pub fn start_learning(&mut self)
        requires
            old(self)@.flashcards.len() * 3 <= usize::MAX,
        ensures
            exists|
                mcq: Seq<Flashcard>,
                first: Seq<Flashcard>,
                second: Seq<Flashcard>,
                draws: ChoiceDraws,
            |
                is_shuffle(mcq, old(self).flashcards@) && is_shuffle(first, old(self).flashcards@)
                    && is_shuffle(second, old(self).flashcards@) && final(self)@
                    == #[trigger] old(self)@.learning(
                    card_views(mcq),
                    card_views(first + second),
                    draws,
                ),
            final(self)@.learn_state.remaining() == 3 * old(self)@.flashcards.len(),
            final(self)@.learn_state.size == 3 * old(self)@.flashcards.len(),
    {
        let mut session = LearnState::new(self.flashcards.as_slice());
        let ghost seeded = session@;
        let ghost (mcq, first, second) = choose|
            mcq: Seq<Flashcard>,
            first: Seq<Flashcard>,
            second: Seq<Flashcard>,
        |
            is_shuffle(mcq, self.flashcards@) && is_shuffle(first, self.flashcards@) && is_shuffle(
                second,
                self.flashcards@,
            ) && seeded == LearnView::seeded(
                card_views(self.flashcards@),
                card_views(mcq),
                card_views(first + second),
            );
        session.set_mcq_ans();
        let ghost draws = choose|draws: ChoiceDraws| session@ == seeded.with_choices(draws);
        self.learn_state = session;
        self.current_screen = GameScreen::Learn;
        assert(is_shuffle(mcq, old(self).flashcards@) && is_shuffle(first, old(self).flashcards@)
            && is_shuffle(second, old(self).flashcards@) && self@ == old(self)@.learning(
            card_views(mcq),
            card_views(first + second),
            draws,
        ));
    }

    /// Takes `cards` as the pool. With a pool that has cards the game
    /// screen comes up; with an empty one the screen stays.
    pub fn set_flashcards(&mut self, cards: Vec<Flashcard>)
        ensures
            final(self)@ == (GameView {
                flashcards: card_views(cards@),
                current_screen: if cards@.len() > 0 {
                    GameScreen::Game
                } else {
                    old(self)@.current_screen
                },
                ..old(self)@
            }),
    {
        let any = cards.len() > 0;
        self.flashcards = cards;
        if any {
            self.current_screen = GameScreen::Game;
        }
    }
}

} // verus!

//! What holds of the game whatever happens in it.

use vstd::prelude::*;
use crate::game::difficulty::asteroids_until_next;
use crate::game::spawn::{blocked, footprints_overlap, lemma_candidate_is_above_top, SpawnDraws};
use crate::game::sprite::{AsteroidView, Sprite2D};
use crate::game::update::{log_updated, MAX_LOG_LEN};
use crate::game::{next_level, none_active, on_screen_only, GameView, InputEvent};

verus! {

/// The asteroids of `s` that are not flagged for removal, in order.
pub open spec fn unflagged(s: Seq<AsteroidView>) -> Seq<AsteroidView> {
    s.filter(|a: AsteroidView| !a.deleted)
}

/// Where some asteroid among the first `n` carries the typed answer, one
/// of them is the target among the first `n`.
pub proof fn lemma_target_exists(game: GameView, n: int) -> (t: int)
    requires
        exists|j: int| game.answers_within(n, j),
    ensures
        game.is_target_within(n, t),
    decreases n,
{
    let j = choose|j: int| game.answers_within(n, j);
    let last = n - 1;
    if exists|k: int| game.answers_within(last, k) {
        let t = lemma_target_exists(game, last);
        assert forall|k: int| #[trigger] game.answers_within(n, k) implies k == last
            || game.answers_within(last, k) by {}
        if game.answers_within(n, last) && game.asteroids[last].sprite.y
            < game.asteroids[t].sprite.y {
            last
        } else {
            assert(game.answers_within(n, t));
            t
        }
    } else {
        assert forall|k: int| #[trigger] game.answers_within(n, k) implies k == last by {
            if k != last {
                assert(game.answers_within(last, k));
            }
        }
        assert(j == last);
        last
    }
}

/// An answer never raises health or quota and never lowers the score; it
/// costs at most one health and one of the quota, and leaves the level
/// alone. Once the game is over it does nothing.
pub proof fn lemma_answer_effects(game: GameView)
    ensures
        game.answered().health <= game.health <= game.answered().health + 1,
        game.answered().asteroids_until_next_level <= game.asteroids_until_next_level
            <= game.answered().asteroids_until_next_level + 1,
        game.answered().score >= game.score,
        game.answered().level == game.level,
        game.answered().asteroids.len() == game.asteroids.len(),
        game.game_over() ==> game.answered() == game,
{
}

/// The answer hits the lowest asteroid that carries it and no other: of
/// two asteroids on the screen that carry the typed answer, the higher
/// one stays as it was, and so does every asteroid but the target.
pub proof fn lemma_lower_one_is_hit(game: GameView, low: int, high: int)
    requires
        !game.game_over(),
        game.answer.len() > 0,
        game.answers_within(game.asteroids.len() as int, low),
        game.answers_within(game.asteroids.len() as int, high),
        game.asteroids[low].sprite.y < game.asteroids[high].sprite.y,
    ensures
        game.target() is Some,
        game.target()->0 != high,
        game.asteroids[game.target()->0].sprite.y <= game.asteroids[low].sprite.y,
        game.answered().asteroids[high] == game.asteroids[high],
        game.answered().asteroids[game.target()->0].destroyed,
        forall|k: int|
            0 <= k < game.asteroids.len() && k != game.target()->0
                ==> #[trigger] game.answered().asteroids[k] == game.asteroids[k],
{
    let t = lemma_target_exists(game, game.asteroids.len() as int);
    lemma_target_is_the_one(game, t);
}

/// Only one asteroid can be the target of the typed answer.
pub proof fn lemma_target_is_the_one(game: GameView, i: int)
    requires
        game.is_target(i),
    ensures
        game.target() == Some(i),
{
    let k = choose|k: int| game.is_target(k);
    assert(game.answers_within(game.asteroids.len() as int, i));
    assert(game.answers_within(game.asteroids.len() as int, k));
}

/// A wrong answer while a hazard is on the screen costs exactly one
/// health and changes no asteroid, nor score, quota or level.
pub proof fn lemma_wrong_answer_under_hazard(game: GameView)
    requires
        !game.game_over(),
        game.answer.len() > 0,
        forall|j: int| !game.answers_within(game.asteroids.len() as int, j),
        game.hazard_on_screen(),
    ensures
        game.answered().health == game.health - 1,
        game.answered().asteroids == game.asteroids,
        game.answered().score == game.score,
        game.answered().asteroids_until_next_level == game.asteroids_until_next_level,
        game.answered().level == game.level,
{
    assert(game.target() is None);
}

/// The level changes only when the quota is used up and no asteroid on
/// the screen still threatens, and then it rises by exactly one. While
/// an asteroid on the screen still threatens, the level stays, whatever
/// the quota.
pub proof fn lemma_level_rises_only_when_done(game: GameView)
    ensures
        game.advanced().level != game.level ==> game.level_done(),
        game.level_done() ==> game.advanced().level == next_level(game.level),
        game.level_done() ==> game.advanced().asteroids_until_next_level == asteroids_until_next(
            game.advanced().level,
        ),
        !none_active(on_screen_only(game.asteroids)) ==> game.advanced().level == game.level,
        game.asteroids_until_next_level != 0 ==> game.advanced() == game,
        game.advanced().health == game.health,
        game.advanced().score == game.score,
{
}

/// Taking one more asteroid into account keeps it if it is not flagged.
pub proof fn lemma_unflagged_push(s: Seq<AsteroidView>, a: AsteroidView)
    ensures
        unflagged(s.push(a)) == if a.deleted {
            unflagged(s)
        } else {
            unflagged(s).push(a)
        },
{
    reveal(Seq::filter);
    assert(s.push(a).drop_last() =~= s);
}

/// The sweep, as far as it has come, has kept the asteroids that are not
/// flagged, has not raised health, has logged no more misses than it has
/// taken health, and has left score, level and quota alone.
pub proof fn lemma_swept_through_effects(game: GameView, s: Seq<AsteroidView>)
    ensures
        game.swept_through(s).asteroids == game.asteroids + unflagged(s),
        game.swept_through(s).health <= game.health,
        game.swept_through(s).log.len() >= game.log.len(),
        game.swept_through(s).log.len() - game.log.len() <= game.health - game.swept_through(
            s,
        ).health,
        game.swept_through(s).score == game.score,
        game.swept_through(s).level == game.level,
        game.swept_through(s).asteroids_until_next_level == game.asteroids_until_next_level,
    decreases s.len(),
{
    reveal(Seq::filter);
    if s.len() == 0 {
        assert(game.asteroids + unflagged(s) =~= game.asteroids);
    } else {
        lemma_swept_through_effects(game, s.drop_last());
        lemma_unflagged_push(s.drop_last(), s.last());
        assert(s.drop_last().push(s.last()) =~= s);
        let before = game.swept_through(s.drop_last());
        if !s.last().deleted {
            assert(before.asteroids.push(s.last()) =~= game.asteroids + unflagged(s));
        }
    }
}

/// The sweep leaves exactly the asteroids that were not flagged, in
/// order. It never raises health, and leaves score, level and quota
/// alone.
pub proof fn lemma_sweep_effects(game: GameView)
    ensures
        game.swept().asteroids == unflagged(game.asteroids),
        game.swept().health <= game.health,
        game.swept().score == game.score,
        game.swept().level == game.level,
        game.swept().asteroids_until_next_level == game.asteroids_until_next_level,
        game.swept().log.len() <= game.log.len() + game.health,
{
    let start = GameView { asteroids: Seq::empty(), ..game };
    lemma_swept_through_effects(start, game.asteroids);
    assert(start.asteroids + unflagged(game.asteroids) =~= unflagged(game.asteroids));
}

/// After the log has moved on it holds no more reminders than its
/// maximum, and no more than before.
pub proof fn lemma_log_stays_bounded(game: GameView, dt: u64)
    ensures
        log_updated(game.log, dt).len() <= MAX_LOG_LEN,
        log_updated(game.log, dt).len() <= game.log.len(),
{
}

/// A frame never raises health and never touches the score. The level
/// stays or rises by one; a new level brings its own quota, and below the
/// highest level the quota stays while the level does. Once the
/// game is over it stays over, and a frame leaves level, quota and the
/// asteroids that are not flagged alone. While the game is not over, the
/// log ends the frame within its maximum.
pub proof fn lemma_frame_effects(game: GameView, dt: u64, draws: SpawnDraws)
    ensures
        game.updated(dt, draws).health <= game.health,
        game.updated(dt, draws).score == game.score,
        game.updated(dt, draws).level == game.level || game.updated(dt, draws).level
            == game.level + 1,
        game.updated(dt, draws).level != game.level ==> game.updated(
            dt,
            draws,
        ).asteroids_until_next_level == asteroids_until_next(game.updated(dt, draws).level),
        game.level < u32::MAX && game.updated(dt, draws).level == game.level ==> game.updated(
            dt,
            draws,
        ).asteroids_until_next_level == game.asteroids_until_next_level,
        game.game_over() ==> game.updated(dt, draws).game_over() && game.updated(
            dt,
            draws,
        ).asteroids == unflagged(game.asteroids),
        game.game_over() ==> game.updated(dt, draws).level == game.level && game.updated(
            dt,
            draws,
        ).asteroids_until_next_level == game.asteroids_until_next_level,
        !game.updated(dt, draws).game_over() ==> game.updated(dt, draws).log.len() <= MAX_LOG_LEN,
{
    let timed = GameView {
        time: game.time.saturating_add(dt),
        levelup_animation_timer: game.levelup_animation_timer.saturating_sub(dt),
        damage_animation_timer: game.damage_animation_timer.saturating_sub(dt),
        explosions: crate::game::update::aged_explosions(game.explosions, dt),
        ..game
    };
    lemma_sweep_effects(timed);
    let begun = game.frame_begun(dt);
    assert(begun == timed.swept());
    if !begun.game_over() {
        let spawned = begun.spawned(dt, draws);
        let moved = spawned.asteroids_moved(dt);
        lemma_level_rises_only_when_done(moved);
        lemma_log_stays_bounded(moved.advanced(), dt);
    }
}

/// No two asteroids of `s` have overlapping footprints.
pub open spec fn apart(s: Seq<AsteroidView>) -> bool {
    forall|i: int, j: int|
        0 <= i < j < s.len() ==> !footprints_overlap(
            (#[trigger] s[i]).sprite,
            (#[trigger] s[j]).sprite,
        )
}

/// Whether two footprints overlap does not depend on their order.
pub proof fn lemma_overlap_is_mutual(a: Sprite2D, b: Sprite2D)
    ensures
        footprints_overlap(a, b) == footprints_overlap(b, a),
{
    assert((b.x - a.x) * (b.x - a.x) == (a.x - b.x) * (a.x - b.x)) by (nonlinear_arith);
    assert((b.y - a.y) * (b.y - a.y) == (a.y - b.y) * (a.y - b.y)) by (nonlinear_arith);
}

/// Giving an asteroid a place adds it at the end or changes nothing, and
/// asteroids that were apart stay apart.
pub proof fn lemma_placed_keeps_apart(game: GameView, a: AsteroidView)
    ensures
        game.placed(a) == game || game.placed(a) == (GameView {
            asteroids: game.asteroids.push(a),
            ..game
        }),
        apart(game.asteroids) ==> apart(game.placed(a).asteroids),
{
    if apart(game.asteroids) && !blocked(game.asteroids, a) {
        let after = game.asteroids.push(a);
        assert forall|i: int, j: int| 0 <= i < j < after.len() implies !footprints_overlap(
            (#[trigger] after[i]).sprite,
            (#[trigger] after[j]).sprite,
        ) by {
            if j == game.asteroids.len() {
                assert(after[i] == game.asteroids[i]);
                lemma_overlap_is_mutual(a.sprite, game.asteroids[i].sprite);
            } else {
                assert(after[i] == game.asteroids[i]);
                assert(after[j] == game.asteroids[j]);
            }
        }
    }
}

/// The spawn controller only adds asteroids, at the end and at most
/// three; each of them is one that the draws describe, so it appears
/// unflagged and out of sight above the top edge; asteroids that were
/// apart stay apart; health, score, level and quota stay. While no wave
/// is due it adds none.
pub proof fn lemma_spawn_effects(game: GameView, dt: u64, draws: SpawnDraws)
    ensures
        forall|k: int|
            game.asteroids.len() <= k < game.spawned(dt, draws).asteroids.len() ==> {
                let a = #[trigger] game.spawned(dt, draws).asteroids[k];
                &&& a == game.candidate(draws.extra_asteroid) || a == game.candidate(
                    draws.third_asteroid,
                ) || a == game.candidate(draws.wave_asteroid)
                &&& a.above_top()
                &&& !a.deleted
                &&& !a.destroyed
            },
        game.asteroids.len() <= game.spawned(dt, draws).asteroids.len() <= game.asteroids.len()
            + 3,
        game.spawned(dt, draws).asteroids.take(game.asteroids.len() as int) == game.asteroids,
        apart(game.asteroids) ==> apart(game.spawned(dt, draws).asteroids),
        !game.spawn_due(dt) ==> game.spawned(dt, draws).asteroids == game.asteroids,
        game.spawned(dt, draws).health == game.health,
        game.spawned(dt, draws).score == game.score,
        game.spawned(dt, draws).level == game.level,
        game.spawned(dt, draws).asteroids_until_next_level == game.asteroids_until_next_level,
{
    let ticked = game.spawn_ticked(dt);
    assert(game.asteroids.take(game.asteroids.len() as int) =~= game.asteroids);
    if game.spawn_due(dt) {
        let second = if draws.extra {
            ticked.placed(ticked.candidate(draws.extra_asteroid))
        } else {
            ticked
        };
        let third = if ticked.third_comes(draws) {
            second.placed(ticked.candidate(draws.third_asteroid))
        } else {
            second
        };
        let last = third.placed(ticked.candidate(draws.wave_asteroid));
        lemma_placed_keeps_apart(ticked, ticked.candidate(draws.extra_asteroid));
        lemma_placed_keeps_apart(second, ticked.candidate(draws.third_asteroid));
        lemma_placed_keeps_apart(third, ticked.candidate(draws.wave_asteroid));
        lemma_candidate_is_above_top(game, draws.extra_asteroid);
        lemma_candidate_is_above_top(game, draws.third_asteroid);
        lemma_candidate_is_above_top(game, draws.wave_asteroid);
        assert(ticked.candidate(draws.extra_asteroid) == game.candidate(draws.extra_asteroid));
        assert(ticked.candidate(draws.third_asteroid) == game.candidate(draws.third_asteroid));
        assert(ticked.candidate(draws.wave_asteroid) == game.candidate(draws.wave_asteroid));
        assert(last.asteroids.take(game.asteroids.len() as int) =~= game.asteroids);
    }
}

/// One thing that happens to a game in play.
pub ghost enum Step {
    /// A frame of the given length, with the draws for its wave.
    Frame(u64, SpawnDraws),
    /// Something that the window reported.
    Event(InputEvent),
}

impl GameView {
    /// The game after `step`.
    pub open spec fn stepped(self, step: Step) -> GameView {
        match step {
            Step::Frame(dt, draws) => self.updated(dt, draws),
            Step::Event(event) => self.handled(event),
        }
    }

    /// The game after `steps`, one after another.
    pub open spec fn played(self, steps: Seq<Step>) -> GameView
        decreases steps.len(),
    {
        if steps.len() == 0 {
            self
        } else {
            self.played(steps.drop_last()).stepped(steps.last())
        }
    }
}

/// Whatever happens in play, in whatever order: health never rises, the
/// score never drops, the level never drops, and a game that is over
/// stays over with its score and level.
pub proof fn lemma_play_never_undoes(game: GameView, steps: Seq<Step>)
    ensures
        game.played(steps).health <= game.health,
        game.played(steps).score >= game.score,
        game.played(steps).level >= game.level,
        game.game_over() ==> game.played(steps).game_over() && game.played(steps).score
            == game.score && game.played(steps).level == game.level,
    decreases steps.len(),
{
    if steps.len() > 0 {
        lemma_play_never_undoes(game, steps.drop_last());
        let before = game.played(steps.drop_last());
        match steps.last() {
            Step::Frame(dt, draws) => {
                lemma_frame_effects(before, dt, draws);
            },
            Step::Event(event) => {
                lemma_answer_effects(before);
                lemma_level_rises_only_when_done(before.answered());
            },
        }
    }
}

} // verus!

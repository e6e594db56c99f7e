//! The difficulty curve: how the level sets quota, cadence, speed and hazard.

use vstd::prelude::*;
use vstd::arithmetic::div_mod::{
    lemma_div_is_ordered,
    lemma_div_is_ordered_by_denominator,
    lemma_div_multiples_vanish,
    lemma_div_multiples_vanish_quotient,
};
use vstd::arithmetic::power::{lemma_pow0, lemma_pow_increases, lemma_pow_positive, pow};
use crate::units::CANVAS_H;

verus! {

/// Time between spawns before any decay.
pub const BASE_SPAWN_INTERVAL: u64 = 8_000_000;

/// The spawn interval never drops below this.
pub const MIN_SPAWN_INTERVAL: u64 = 2_000_000;

/// At level 1 an asteroid needs this many seconds to cross the canvas.
pub const BASE_CROSSING: u32 = 25;

/// No level lets an asteroid cross the canvas in fewer seconds than this.
pub const MIN_CROSSING: u32 = 5;

/// Correct answers that a level asks for before the next one begins.
pub open spec fn asteroids_until_next(level: u32) -> u32 {
    if level == 1 {
        5
    } else if level == 2 {
        7
    } else if 3 <= level <= 5 {
        10
    } else if 6 <= level <= 8 {
        15
    } else if 9 <= level <= 12 {
        20
    } else if 13 <= level <= 15 {
        25
    } else if 16 <= level <= 18 {
        30
    } else {
        40
    }
}

/// The base interval shrunk by 17/20 once per level, rounded down.
pub open spec fn decayed_interval(level: nat) -> int {
    BASE_SPAWN_INTERVAL as int * pow(17, level) / pow(20, level)
}

/// Time between spawns at `level`: the decayed interval, but no less than
/// the minimum.
pub open spec fn spawn_interval(level: nat) -> int {
    if decayed_interval(level) < MIN_SPAWN_INTERVAL {
        MIN_SPAWN_INTERVAL as int
    } else {
        decayed_interval(level)
    }
}

/// Seconds an asteroid needs to cross the canvas at `level`: one less per
/// level, down to the minimum.
pub open spec fn crossing_seconds(level: u32) -> int {
    if BASE_CROSSING - (level - 1) > MIN_CROSSING {
        BASE_CROSSING - (level - 1)
    } else {
        MIN_CROSSING as int
    }
}

/// Fall speed at `level`, in length units per second.
pub open spec fn asteroid_speed(level: u32) -> int {
    CANVAS_H as int / crossing_seconds(level)
}

/// One asteroid in how many is hazardous at `level`; 0 where none is.
/// None is at level 1; from level 2 on the divisor only shrinks as the
/// level rises, so hazards only get more frequent.
pub open spec fn hazard_divisor(level: u32) -> u32 {
    if level == 1 {
        0
    } else if 2 <= level <= 5 {
        10
    } else if 6 <= level <= 8 {
        8
    } else if 9 <= level <= 15 {
        6
    } else {
        5
    }
}

/// Whether the draw `rand_value` makes an asteroid hazardous at `level`:
/// the draw is a multiple of the level's divisor.
pub open spec fn hazard(rand_value: u32, level: u32) -> bool {
    hazard_divisor(level) != 0 && rand_value as int % hazard_divisor(level) as int == 0
}

/// How many asteroids must be destroyed at `level` to reach the next.
pub fn calculate_asteroids_until_next(level: u32) -> (n: u32)
    ensures
        n == asteroids_until_next(level),
        n > 0,
{
    match level {
        1 => 5,
        2 => 7,
        3..=5 => 10,
        6..=8 => 15,
        9..=12 => 20,
        13..=15 => 25,
        16..=18 => 30,
        _ => 40,
    }
}

proof fn lemma_pow_step(b: int, e: nat)
    ensures
        pow(b, e + 1) == b * pow(b, e),
{
    reveal(pow);
}

proof fn lemma_pow_values()
    ensures
        pow(17, 8) == 6_975_757_441,
        pow(20, 8) == 25_600_000_000,
        pow(17, 9) == 118_587_876_497,
        pow(20, 9) == 512_000_000_000,
{
    lemma_pow0(17);
    lemma_pow0(20);
    lemma_pow_step(17, 0);
    lemma_pow_step(20, 0);
    lemma_pow_step(17, 1);
    lemma_pow_step(20, 1);
    lemma_pow_step(17, 2);
    lemma_pow_step(20, 2);
    lemma_pow_step(17, 3);
    lemma_pow_step(20, 3);
    lemma_pow_step(17, 4);
    lemma_pow_step(20, 4);
    lemma_pow_step(17, 5);
    lemma_pow_step(20, 5);
    lemma_pow_step(17, 6);
    lemma_pow_step(20, 6);
    lemma_pow_step(17, 7);
    lemma_pow_step(20, 7);
    lemma_pow_step(17, 8);
    lemma_pow_step(20, 8);
}

proof fn lemma_decay_outruns(level: nat)
    requires
        level >= 9,
    ensures
        4 * pow(17, level) <= pow(20, level),
        pow(17, level) > 0,
        pow(20, level) > 0,
    decreases level,
{
    lemma_pow_positive(17, level);
    lemma_pow_positive(20, level);
    if level == 9 {
        lemma_pow_values();
    } else {
        let prev = (level - 1) as nat;
        lemma_decay_outruns(prev);
        lemma_pow_step(17, prev);
        lemma_pow_step(20, prev);
    }
}

/// From level 9 on the decayed interval is below the minimum, so the
/// spawn interval is the minimum.
pub proof fn lemma_spawn_interval_late(level: nat)
    requires
        level >= 9,
    ensures
        spawn_interval(level) == MIN_SPAWN_INTERVAL,
{
    lemma_decay_outruns(level);
    let n = pow(17, level);
    let d = pow(20, level);
    assert(BASE_SPAWN_INTERVAL as int * n <= d * 2_000_000) by (nonlinear_arith)
        requires
            4 * n <= d,
            BASE_SPAWN_INTERVAL == 8_000_000,
    ;
    lemma_div_is_ordered(BASE_SPAWN_INTERVAL as int * n, d * 2_000_000, d);
    lemma_div_multiples_vanish(2_000_000, d);
}

proof fn lemma_decay_shrinks(level: nat)
    ensures
        decayed_interval(level + 1) <= decayed_interval(level),
        decayed_interval(level) >= 0,
{
    lemma_pow_positive(17, level);
    lemma_pow_positive(20, level);
    lemma_pow_step(17, level);
    lemma_pow_step(20, level);
    let n = BASE_SPAWN_INTERVAL as int * pow(17, level);
    let d = pow(20, level);
    assert(n >= 0) by (nonlinear_arith)
        requires
            n == BASE_SPAWN_INTERVAL as int * pow(17, level),
            pow(17, level) > 0,
    ;
    assert(BASE_SPAWN_INTERVAL as int * (17 * pow(17, level)) == 17 * n) by (nonlinear_arith)
        requires
            n == BASE_SPAWN_INTERVAL as int * pow(17, level),
    ;
    assert(20 * d > 0);
    lemma_div_is_ordered(17 * n, 20 * n, 20 * d);
    lemma_div_multiples_vanish_quotient(20, n, d);
    lemma_div_is_ordered(0, n, d);
}

/// The spawn interval never grows with the level, and never drops below
/// the minimum.
pub proof fn lemma_spawn_interval_never_grows(low: nat, high: nat)
    requires
        low <= high,
    ensures
        spawn_interval(high) <= spawn_interval(low),
        spawn_interval(high) >= MIN_SPAWN_INTERVAL,
        spawn_interval(low) <= BASE_SPAWN_INTERVAL,
    decreases high - low,
{
    lemma_spawn_interval_within(low);
    lemma_spawn_interval_within(high);
    if low < high {
        lemma_decay_shrinks(low);
        lemma_spawn_interval_never_grows(low + 1, high);
    }
}

proof fn lemma_spawn_interval_within(level: nat)
    ensures
        MIN_SPAWN_INTERVAL <= spawn_interval(level) <= BASE_SPAWN_INTERVAL,
    decreases level,
{
    if level == 0 {
        lemma_pow0(17);
        lemma_pow0(20);
    } else {
        lemma_spawn_interval_within((level - 1) as nat);
        lemma_decay_shrinks((level - 1) as nat);
    }
}

/// Time between spawns at `level`.
pub fn calculate_spawn_interval(level: u32) -> (interval: u64)
    ensures
        interval == spawn_interval(level as nat),
        MIN_SPAWN_INTERVAL <= interval <= BASE_SPAWN_INTERVAL,
{
    proof {
        lemma_spawn_interval_within(level as nat);
    }
    if level >= 9 {
        proof {
            lemma_spawn_interval_late(level as nat);
        }
        return MIN_SPAWN_INTERVAL;
    }
    let mut num: u64 = BASE_SPAWN_INTERVAL;
    let mut den: u64 = 1;
    let mut i: u32 = 0;
    proof {
        lemma_pow0(17);
        lemma_pow0(20);
    }
    while i < level
        invariant
            i <= level <= 8,
            num == BASE_SPAWN_INTERVAL as int * pow(17, i as nat),
            den == pow(20, i as nat),
        decreases level - i,
    {
        proof {
            lemma_pow_values();
            lemma_pow_increases(17, i as nat, 7);
            lemma_pow_increases(17, 7, 8);
            lemma_pow_increases(20, i as nat, 7);
            lemma_pow_increases(20, 7, 8);
            lemma_pow_step(17, 7);
            lemma_pow_step(20, 7);
            lemma_pow_step(17, i as nat);
            lemma_pow_step(20, i as nat);
            assert(BASE_SPAWN_INTERVAL as int * (17 * pow(17, i as nat)) == 17 * (
            BASE_SPAWN_INTERVAL as int * pow(17, i as nat))) by (nonlinear_arith);
            assert(BASE_SPAWN_INTERVAL as int * pow(17, i as nat) <= 8_000_000 * pow(17, 7))
                by (nonlinear_arith)
                requires
                    pow(17, i as nat) <= pow(17, 7),
                    BASE_SPAWN_INTERVAL == 8_000_000,
            ;
        }
        num = num * 17;
        den = den * 20;
        i = i + 1;
    }
    proof {
        lemma_pow_positive(20, level as nat);
    }
    let decayed: u64 = num / den;
    if decayed < MIN_SPAWN_INTERVAL {
        MIN_SPAWN_INTERVAL
    } else {
        decayed
    }
}

/// The crossing time never grows with the level, so the speed never
/// drops, and from level 21 on both stay the same.
pub proof fn lemma_asteroid_speed_never_drops(low: u32, high: u32)
    requires
        1 <= low <= high,
    ensures
        asteroid_speed(low) <= asteroid_speed(high),
        asteroid_speed(high) <= CANVAS_H as int / MIN_CROSSING as int,
        low >= 21 ==> asteroid_speed(low) == asteroid_speed(high),
{
    lemma_div_is_ordered_by_denominator(
        CANVAS_H as int,
        crossing_seconds(high),
        crossing_seconds(low),
    );
    lemma_div_is_ordered_by_denominator(
        CANVAS_H as int,
        MIN_CROSSING as int,
        crossing_seconds(high),
    );
}

/// Fall speed at `level`, in length units per second.
pub fn calculate_asteroid_speed(level: u32) -> (speed: u32)
    ensures
        speed == asteroid_speed(level),
        0 < speed <= 108_000,
{
    let wanted: i64 = BASE_CROSSING as i64 - (level as i64 - 1);
    let seconds: i64 = if wanted > MIN_CROSSING as i64 {
        wanted
    } else {
        MIN_CROSSING as i64
    };
    proof {
        lemma_div_is_ordered_by_denominator(CANVAS_H as int, 5, seconds as int);
        lemma_div_is_ordered_by_denominator(CANVAS_H as int, seconds as int, 26);
    }
    (CANVAS_H as i64 / seconds) as u32
}

/// From level 2 on the hazard divisor never grows with the level, and it
/// is never less than 5: a draw that makes an asteroid hazardous is a
/// multiple of a number that only shrinks.
pub proof fn lemma_hazard_divisor_never_grows(low: u32, high: u32)
    requires
        2 <= low <= high,
    ensures
        hazard_divisor(high) <= hazard_divisor(low),
        5 <= hazard_divisor(high),
        hazard_divisor(low) <= 10,
{
}

/// Whether the draw `rand_value` makes an asteroid hazardous at `level`.
/// No asteroid is hazardous at level 1.
pub fn is_red(rand_value: u32, level: u32) -> (red: bool)
    ensures
        red == hazard(rand_value, level),
        level == 1 ==> !red,
{
    match level {
        1 => false,
        2..=5 => rand_value % 10 == 0,
        6..=8 => rand_value % 8 == 0,
        9..=15 => rand_value % 6 == 0,
        _ => rand_value % 5 == 0,
    }
}

} // verus!

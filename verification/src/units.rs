//! The integer units in which the simulation counts.

use vstd::arithmetic::div_mod::lemma_div_is_ordered;
use vstd::prelude::*;

verus! {

/// Microseconds in a second: every time and duration is in microseconds.
pub const SECOND: u64 = 1_000_000;

/// Length units in a canvas pixel: every position and size is in these.
pub const PIXEL: i32 = 1_000;

/// Angle units in a full turn: every angle is in thousandths of a degree.
pub const FULL_TURN: u32 = 360_000;

/// The share that stands for all of something: shares are in millionths.
pub const WHOLE: u64 = 1_000_000;

/// Width of the canvas.
pub const CANVAS_W: i32 = 960_000;

/// Height of the canvas. The origin is at its centre and `y` grows upwards.
pub const CANVAS_H: i32 = 540_000;

/// `part` of `total` as a share, rounded down; all of it when `total` is 0
/// or `part` exceeds it.
pub open spec fn share_of(part: nat, total: nat) -> nat {
    if total == 0 || part >= total {
        WHOLE as nat
    } else {
        part * WHOLE as nat / total
    }
}

/// A larger part of the same total is no smaller a share; no part is a
/// share of 0, unless the total is 0, and all of it is the whole.
pub proof fn lemma_share_of_grows(less: nat, more: nat, total: nat)
    requires
        less <= more <= total,
    ensures
        share_of(less, total) <= share_of(more, total) <= WHOLE,
        total > 0 ==> share_of(0, total) == 0,
        share_of(total, total) == WHOLE,
{
    if total > 0 && less < total {
        assert(less * WHOLE as nat / total <= WHOLE) by (nonlinear_arith)
            requires
                less < total,
        ;
    }
    if total > 0 && more < total {
        assert(less * WHOLE as nat <= more * WHOLE as nat) by (nonlinear_arith)
            requires
                less <= more,
        ;
        lemma_div_is_ordered(
            (less * WHOLE as nat) as int,
            (more * WHOLE as nat) as int,
            total as int,
        );
        assert(more * WHOLE as nat / total <= WHOLE) by (nonlinear_arith)
            requires
                more < total,
        ;
    }
}

/// Computes `share_of`.
pub fn share(part: u64, total: u64) -> (s: u64)
    ensures
        s == share_of(part as nat, total as nat),
        s <= WHOLE,
{
    if total == 0 || part >= total {
        WHOLE
    } else {
        assert(part as int * WHOLE as int <= 0xFFFF_FFFF_FFFF_FFFF * 1_000_000) by (nonlinear_arith)
            requires
                0 <= part <= 0xFFFF_FFFF_FFFF_FFFF,
                WHOLE == 1_000_000,
        ;
        let scaled: u128 = part as u128 * WHOLE as u128;
        let q: u128 = scaled / total as u128;
        assert(q <= WHOLE) by (nonlinear_arith)
            requires
                q == (part * WHOLE) / (total as int),
                0 <= part < total,
                WHOLE == 1_000_000,
        ;
        q as u64
    }
}

} // verus!

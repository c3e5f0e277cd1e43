//! Continuous mouse events and their accumulation.
//!
//! Wheel ticks and motion deltas arrive as a log of events.  A query pass sums
//! the log once into a total per axis; this module says what that total is.

use vstd::prelude::*;
use bevy::input::mouse::MouseScrollUnit;
use crate::scalar::{decoded, limited, scalar_from_bits, limit, LIMIT};

verus! {

/// How many pixels one line of scrolling counts for.
pub const PIXELS_PER_LINE: i64 = 14;

/// One tick of the mouse wheel.  `x` and `y` are single-precision bit patterns.
#[derive(Clone, Copy, Debug)]
pub struct WheelTick {
    /// Whether `x` and `y` count lines or pixels.
    pub unit: MouseScrollUnit,
    /// The horizontal scroll amount.
    pub x: u32,
    /// The vertical scroll amount.
    pub y: u32,
    /// Whether the tick comes from inertial scrolling rather than from the user.
    pub momentum: bool,
}

/// One movement of the mouse.  `dx` and `dy` are single-precision bit patterns.
#[derive(Clone, Copy, Debug)]
pub struct MotionDelta {
    /// The horizontal movement.
    pub dx: u32,
    /// The vertical movement.
    pub dy: u32,
}

/// The factor that brings an amount in `unit` to pixels.
pub open spec fn unit_scale(unit: MouseScrollUnit) -> int {
    match unit {
        MouseScrollUnit::Line => PIXELS_PER_LINE as int,
        MouseScrollUnit::Pixel => 1,
    }
}

/// What one tick adds to the wheel total: nothing for a momentum tick,
/// otherwise its amounts in pixels.
pub open spec fn tick_delta(tick: WheelTick) -> (int, int) {
    if tick.momentum {
        (0, 0)
    } else {
        (unit_scale(tick.unit) * decoded(tick.x), unit_scale(tick.unit) * decoded(tick.y))
    }
}

/// The exact sum of what the ticks add, in log order.
pub open spec fn wheel_sum(ticks: Seq<WheelTick>) -> (int, int)
    decreases ticks.len(),
{
    if ticks.len() == 0 {
        (0, 0)
    } else {
        let rest = wheel_sum(ticks.drop_last());
        let delta = tick_delta(ticks.last());
        (rest.0 + delta.0, rest.1 + delta.1)
    }
}

/// The wheel total of a log: the exact sum, limited per axis to `[-LIMIT, LIMIT]`.
pub open spec fn wheel_total(ticks: Seq<WheelTick>) -> (int, int) {
    (limited(wheel_sum(ticks).0), limited(wheel_sum(ticks).1))
}

/// The exact sum of the movements, in log order.
pub open spec fn motion_sum(deltas: Seq<MotionDelta>) -> (int, int)
    decreases deltas.len(),
{
    if deltas.len() == 0 {
        (0, 0)
    } else {
        let rest = motion_sum(deltas.drop_last());
        (rest.0 + decoded(deltas.last().dx), rest.1 + decoded(deltas.last().dy))
    }
}

/// The motion total of a log: the exact sum, limited per axis to `[-LIMIT, LIMIT]`.
pub open spec fn motion_total(deltas: Seq<MotionDelta>) -> (int, int) {
    (limited(motion_sum(deltas).0), limited(motion_sum(deltas).1))
}

/// The largest magnitude that one tick can add to the wheel total.
pub const TICK_LIMIT: i64 = 0x3800_0000_0000_0000;

/// One tick adds at most `TICK_LIMIT` to either axis.
pub proof fn lemma_tick_delta_bounded(tick: WheelTick)
    ensures
        -TICK_LIMIT <= tick_delta(tick).0 <= TICK_LIMIT,
        -TICK_LIMIT <= tick_delta(tick).1 <= TICK_LIMIT,
{
    crate::scalar::lemma_decoded_bounded(tick.x);
    crate::scalar::lemma_decoded_bounded(tick.y);
    let scale = unit_scale(tick.unit);
    let x = decoded(tick.x);
    let y = decoded(tick.y);
    assert(-TICK_LIMIT <= scale * x <= TICK_LIMIT && -TICK_LIMIT <= scale * y <= TICK_LIMIT)
        by (nonlinear_arith)
        requires
            scale == 1 || scale == 14,
            -0x400_0000_0000_0000 <= x <= 0x400_0000_0000_0000,
            -0x400_0000_0000_0000 <= y <= 0x400_0000_0000_0000,
            TICK_LIMIT == 0x3800_0000_0000_0000,
    ;
}

/// The exact sum of a log of `n` ticks stays within `n * TICK_LIMIT`.
pub proof fn lemma_wheel_sum_bounded(ticks: Seq<WheelTick>)
    ensures
        -(ticks.len() * TICK_LIMIT) <= wheel_sum(ticks).0 <= ticks.len() * TICK_LIMIT,
        -(ticks.len() * TICK_LIMIT) <= wheel_sum(ticks).1 <= ticks.len() * TICK_LIMIT,
    decreases ticks.len(),
{
    if ticks.len() > 0 {
        lemma_wheel_sum_bounded(ticks.drop_last());
        lemma_tick_delta_bounded(ticks.last());
    }
}

/// The exact sum of a log of `n` movements stays within `n * LIMIT`.
pub proof fn lemma_motion_sum_bounded(deltas: Seq<MotionDelta>)
    ensures
        -(deltas.len() * LIMIT) <= motion_sum(deltas).0 <= deltas.len() * LIMIT,
        -(deltas.len() * LIMIT) <= motion_sum(deltas).1 <= deltas.len() * LIMIT,
    decreases deltas.len(),
{
    if deltas.len() > 0 {
        lemma_motion_sum_bounded(deltas.drop_last());
        crate::scalar::lemma_decoded_bounded(deltas.last().dx);
        crate::scalar::lemma_decoded_bounded(deltas.last().dy);
    }
}

/// A momentum tick adds nothing, whatever its amounts: the log without it has
/// the same sum and the same total.
pub proof fn lemma_momentum_tick_ignored(ticks: Seq<WheelTick>, i: int)
    requires
        0 <= i < ticks.len(),
        ticks[i].momentum,
    ensures
        wheel_sum(ticks.remove(i)) == wheel_sum(ticks),
        wheel_total(ticks.remove(i)) == wheel_total(ticks),
    decreases ticks.len(),
{
    if i == ticks.len() - 1 {
        assert(ticks.remove(i) == ticks.drop_last());
    } else {
        lemma_momentum_tick_ignored(ticks.drop_last(), i);
        assert(ticks.remove(i).drop_last() == ticks.drop_last().remove(i));
        assert(ticks.remove(i).last() == ticks.last());
    }
}

/// A tick that is not a momentum tick adds its decoded amounts to the sum:
/// fourteen times over when it counts lines, as they are when it counts
/// pixels.
pub proof fn lemma_direct_tick_counts(ticks: Seq<WheelTick>, tick: WheelTick)
    requires
        !tick.momentum,
    ensures
        tick.unit is Line ==> wheel_sum(ticks.push(tick)) == (
            wheel_sum(ticks).0 + 14 * decoded(tick.x),
            wheel_sum(ticks).1 + 14 * decoded(tick.y),
        ),
        tick.unit is Pixel ==> wheel_sum(ticks.push(tick)) == (
            wheel_sum(ticks).0 + decoded(tick.x),
            wheel_sum(ticks).1 + decoded(tick.y),
        ),
{
    assert(ticks.push(tick).drop_last() == ticks);
    assert(ticks.push(tick).last() == tick);
}

/// Sums a log of wheel ticks into the wheel total.
pub fn total_wheel_movement(ticks: &Vec<WheelTick>) -> (r: (i64, i64))
    ensures
        (r.0 as int, r.1 as int) == wheel_total(ticks@),
{
    let mut x: i128 = 0;
    let mut y: i128 = 0;
    let mut i: usize = 0;
    while i < ticks.len()
        invariant
            i <= ticks.len(),
            (x as int, y as int) == wheel_sum(ticks@.take(i as int)),
        decreases ticks.len() - i,
    {
        let tick = ticks[i];
        proof {
            let next = ticks@.take(i as int + 1);
            assert(next.drop_last() == ticks@.take(i as int));
            assert(next.last() == tick);
            lemma_wheel_sum_bounded(ticks@.take(i as int));
            lemma_tick_delta_bounded(tick);
        }
        if !tick.momentum {
            let scale: i128 = match tick.unit {
                MouseScrollUnit::Line => PIXELS_PER_LINE as i128,
                MouseScrollUnit::Pixel => 1,
            };
            let dx = scalar_from_bits(tick.x);
            let dy = scalar_from_bits(tick.y);
            x = x + scale * (dx as i128);
            y = y + scale * (dy as i128);
        }
        i = i + 1;
    }
    assert(ticks@.take(ticks.len() as int) == ticks@);
    (limit(x), limit(y))
}

/// Sums a log of mouse movements into the motion total.
pub fn total_mouse_movement(deltas: &Vec<MotionDelta>) -> (r: (i64, i64))
    ensures
        (r.0 as int, r.1 as int) == motion_total(deltas@),
{
    let mut x: i128 = 0;
    let mut y: i128 = 0;
    let mut i: usize = 0;
    while i < deltas.len()
        invariant
            i <= deltas.len(),
            (x as int, y as int) == motion_sum(deltas@.take(i as int)),
        decreases deltas.len() - i,
    {
        let delta = deltas[i];
        proof {
            let next = deltas@.take(i as int + 1);
            assert(next.drop_last() == deltas@.take(i as int));
            assert(next.last() == delta);
            lemma_motion_sum_bounded(deltas@.take(i as int));
        }
        let dx = scalar_from_bits(delta.dx);
        let dy = scalar_from_bits(delta.dy);
        x = x + (dx as i128);
        y = y + (dy as i128);
        i = i + 1;
    }
    assert(deltas@.take(deltas.len() as int) == deltas@);
    (limit(x), limit(y))
}

} // verus!

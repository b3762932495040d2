//! Fixed-point model of one row's animation timeline.
//!
//! A row waits out its per-row delay, then eases in over its duration with a
//! quadratic ease-out curve, and is done afterwards. Times are milliseconds;
//! progress is scaled so that `PROGRESS_ONE` stands for a progress of 1.

use vstd::arithmetic::div_mod::{
    lemma_div_is_ordered, lemma_div_pos_is_pos, lemma_multiply_divide_le,
    lemma_multiply_divide_lt,
};
use vstd::arithmetic::mul::{lemma_mul_inequality, lemma_mul_strict_inequality};
use vstd::prelude::*;

verus! {

/// One full unit of animation progress in fixed point.
pub const PROGRESS_ONE: u64 = 1_000_000;

/// Lifecycle of an animated row at some instant: it has not begun, it is
/// sliding in, or it has reached its resting place for good.
#[derive(Clone, Copy, Debug, PartialEq, Eq, Structural)]
pub enum AnimState {
    Waiting,
    Animating,
    Done,
}

/// Milliseconds elapsed since `start_ms`, saturating at zero for instants
/// before the start.
pub open spec fn elapsed_ms(now_ms: int, start_ms: int) -> int {
    if now_ms >= start_ms {
        now_ms - start_ms
    } else {
        0
    }
}

/// Quadratic ease-out `1 - (1 - t)^2 == t * (2 - t)`, over fixed-point
/// `t` in `[0, PROGRESS_ONE]`.
pub open spec fn ease_out_quadratic(t: int) -> int
    recommends
        0 <= t <= PROGRESS_ONE,
{
    t * (2 * PROGRESS_ONE - t) / (PROGRESS_ONE as int)
}

/// The animation time `clamp((elapsed - delay) / duration, 0, 1)` in fixed
/// point. A duration of zero jumps straight to the end once the delay is over.
pub open spec fn scaled_time(elapsed: int, delay: int, duration: int) -> int
    recommends
        0 <= elapsed,
        0 <= delay,
        0 <= duration,
{
    if elapsed - delay >= duration {
        PROGRESS_ONE as int
    } else if elapsed <= delay {
        0
    } else {
        (elapsed - delay) * PROGRESS_ONE / duration
    }
}

/// Progress of a row `elapsed` milliseconds in, given its delay and duration.
pub open spec fn progress_at(elapsed: int, delay: int, duration: int) -> int {
    ease_out_quadratic(scaled_time(elapsed, delay, duration))
}

/// State of a row `elapsed` milliseconds in: waiting strictly before its
/// delay, done once delay plus duration has passed, animating in between.
pub open spec fn state_at(elapsed: int, delay: int, duration: int) -> AnimState {
    if elapsed < delay {
        AnimState::Waiting
    } else if elapsed - delay < duration {
        AnimState::Animating
    } else {
        AnimState::Done
    }
}

/// Fixed-point animation time reached `elapsed` milliseconds in.
fn scaled_time_ms(elapsed: u64, delay: u64, duration: u64) -> (t: u64)
    ensures
        t == scaled_time(elapsed as int, delay as int, duration as int),
        t <= PROGRESS_ONE,
{
    if elapsed > delay {
        let rem = elapsed - delay;
        if rem >= duration {
            PROGRESS_ONE
        } else {
            let wide = (rem as u128) * (PROGRESS_ONE as u128);
            let t = (wide / (duration as u128)) as u64;
            proof {
                lemma_mul_strict_inequality(rem as int, duration as int, PROGRESS_ONE as int);
                lemma_multiply_divide_lt(
                    rem as int * PROGRESS_ONE as int,
                    duration as int,
                    PROGRESS_ONE as int,
                );
                lemma_div_pos_is_pos(rem as int * PROGRESS_ONE as int, duration as int);
            }
            t
        }
    } else {
        if duration == 0 && elapsed == delay {
            PROGRESS_ONE
        } else {
            0
        }
    }
}

/// The ease-out curve applied to a fixed-point animation time.
fn apply_ease(t: u64) -> (p: u64)
    requires
        t <= PROGRESS_ONE,
    ensures
        p == ease_out_quadratic(t as int),
        p <= PROGRESS_ONE,
{
    proof {
        let ti = t as int;
        let one = PROGRESS_ONE as int;
        assert(ti * (2 * one - ti) <= one * one) by (nonlinear_arith)
            requires
                0 <= ti <= one,
        ;
        lemma_div_pos_is_pos(ti * (2 * one - ti), one);
        lemma_multiply_divide_le(ti * (2 * one - ti), one, one);
        assert(ti * (2 * one - ti) >= 0) by (nonlinear_arith)
            requires
                0 <= ti <= one,
        ;
    }
    t * (2 * PROGRESS_ONE - t) / PROGRESS_ONE
}

/// Progress of a row `elapsed` milliseconds in, in fixed point.
pub fn progress_scaled(elapsed: u64, delay: u64, duration: u64) -> (p: u64)
    ensures
        p == progress_at(elapsed as int, delay as int, duration as int),
        p <= PROGRESS_ONE,
{
    apply_ease(scaled_time_ms(elapsed, delay, duration))
}

/// State of a row `elapsed` milliseconds in.
pub fn state_scaled(elapsed: u64, delay: u64, duration: u64) -> (s: AnimState)
    ensures
        s == state_at(elapsed as int, delay as int, duration as int),
{
    if elapsed < delay {
        AnimState::Waiting
    } else if elapsed - delay < duration {
        AnimState::Animating
    } else {
        AnimState::Done
    }
}

/// Before its delay has elapsed, a row is waiting and its progress is zero.
pub proof fn lemma_waiting_zero_progress(elapsed: int, delay: int, duration: int)
    requires
        0 <= elapsed < delay,
        0 <= duration,
    ensures
        state_at(elapsed, delay, duration) is Waiting,
        progress_at(elapsed, delay, duration) == 0,
{
    assert(scaled_time(elapsed, delay, duration) == 0);
    assert(ease_out_quadratic(0) == 0);
}

/// The scaled animation time stays within `[0, PROGRESS_ONE]`.
pub proof fn lemma_scaled_time_bounds(elapsed: int, delay: int, duration: int)
    requires
        0 <= elapsed,
        0 <= delay,
        0 <= duration,
    ensures
        0 <= scaled_time(elapsed, delay, duration) <= PROGRESS_ONE,
{
    if elapsed - delay >= duration {
    } else if elapsed <= delay {
    } else {
        let rem = elapsed - delay;
        lemma_div_pos_is_pos(rem * PROGRESS_ONE, duration);
        lemma_mul_strict_inequality(rem, duration, PROGRESS_ONE as int);
        lemma_multiply_divide_lt(rem * PROGRESS_ONE, duration, PROGRESS_ONE as int);
    }
}

/// The scaled animation time never decreases as time advances.
pub proof fn lemma_scaled_time_monotone(e1: int, e2: int, delay: int, duration: int)
    requires
        0 <= e1 <= e2,
        0 <= delay,
        0 <= duration,
    ensures
        scaled_time(e1, delay, duration) <= scaled_time(e2, delay, duration),
{
    lemma_scaled_time_bounds(e1, delay, duration);
    lemma_scaled_time_bounds(e2, delay, duration);
    if e1 - delay >= duration {
    } else if e2 - delay >= duration {
    } else if e1 <= delay {
    } else {
        let rem1 = e1 - delay;
        let rem2 = e2 - delay;
        lemma_mul_inequality(rem1, rem2, PROGRESS_ONE as int);
        lemma_div_is_ordered(rem1 * PROGRESS_ONE, rem2 * PROGRESS_ONE, duration);
    }
}

/// The ease-out curve never decreases over `[0, PROGRESS_ONE]`.
pub proof fn lemma_ease_monotone(t1: int, t2: int)
    requires
        0 <= t1 <= t2 <= PROGRESS_ONE,
    ensures
        ease_out_quadratic(t1) <= ease_out_quadratic(t2),
{
    let one = PROGRESS_ONE as int;
    assert(t1 * (2 * one - t1) <= t2 * (2 * one - t2)) by (nonlinear_arith)
        requires
            0 <= t1 <= t2 <= one,
    ;
    lemma_div_is_ordered(t1 * (2 * one - t1), t2 * (2 * one - t2), one);
}

/// Progress never decreases as time advances.
pub proof fn lemma_progress_monotone(e1: int, e2: int, delay: int, duration: int)
    requires
        0 <= e1 <= e2,
        0 <= delay,
        0 <= duration,
    ensures
        progress_at(e1, delay, duration) <= progress_at(e2, delay, duration),
{
    lemma_scaled_time_bounds(e1, delay, duration);
    lemma_scaled_time_bounds(e2, delay, duration);
    lemma_scaled_time_monotone(e1, e2, delay, duration);
    lemma_ease_monotone(
        scaled_time(e1, delay, duration),
        scaled_time(e2, delay, duration),
    );
}

/// Progress stays within `[0, PROGRESS_ONE]`.
pub proof fn lemma_progress_bounds(elapsed: int, delay: int, duration: int)
    requires
        0 <= elapsed,
        0 <= delay,
        0 <= duration,
    ensures
        0 <= progress_at(elapsed, delay, duration) <= PROGRESS_ONE,
{
    lemma_scaled_time_bounds(elapsed, delay, duration);
    let t = scaled_time(elapsed, delay, duration);
    let one = PROGRESS_ONE as int;
    assert(0 <= t * (2 * one - t) <= one * one) by (nonlinear_arith)
        requires
            0 <= t <= one,
    ;
    lemma_div_pos_is_pos(t * (2 * one - t), one);
    lemma_multiply_divide_le(t * (2 * one - t), one, one);
}

/// Once delay plus duration has passed a row is done, its progress is exactly
/// one, and both stay that way under any further advance of time.
pub proof fn lemma_done_stays_done(e1: int, e2: int, delay: int, duration: int)
    requires
        0 <= delay,
        0 <= duration,
        delay + duration <= e1 <= e2,
    ensures
        state_at(e1, delay, duration) is Done,
        state_at(e2, delay, duration) is Done,
        progress_at(e1, delay, duration) == PROGRESS_ONE,
        progress_at(e2, delay, duration) == PROGRESS_ONE,
{
    let one = PROGRESS_ONE as int;
    assert(scaled_time(e1, delay, duration) == one);
    assert(scaled_time(e2, delay, duration) == one);
    assert(one * (2 * one - one) / one == one);
}

/// Full progress characterizes the done state, and waiting rows have zero
/// progress; in particular an animating or waiting row has progress below one.
pub proof fn lemma_full_progress_iff_done(elapsed: int, delay: int, duration: int)
    requires
        0 <= elapsed,
        0 <= delay,
        0 <= duration,
    ensures
        progress_at(elapsed, delay, duration) == PROGRESS_ONE
            <==> state_at(elapsed, delay, duration) is Done,
        state_at(elapsed, delay, duration) is Waiting
            ==> progress_at(elapsed, delay, duration) == 0,
{
    let one = PROGRESS_ONE as int;
    if elapsed - delay >= duration {
        lemma_done_stays_done(elapsed, elapsed, delay, duration);
    } else {
        let t = scaled_time(elapsed, delay, duration);
        lemma_scaled_time_bounds(elapsed, delay, duration);
        if elapsed <= delay {
            assert(t == 0);
            assert(ease_out_quadratic(0) == 0);
        } else {
            let rem = elapsed - delay;
            lemma_mul_strict_inequality(rem, duration, one);
            lemma_multiply_divide_lt(rem * one, duration, one);
            assert(t < one);
            assert(t * (2 * one - t) < one * one) by (nonlinear_arith)
                requires
                    0 <= t < one,
            ;
            lemma_multiply_divide_lt(t * (2 * one - t), one, one);
        }
    }
}

} // verus!

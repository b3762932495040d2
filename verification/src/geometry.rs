//! Per-frame paint geometry for a row, in whole pixels.
//!
//! A row slides leftwards from a starting x towards its resting x as its
//! progress grows, and fades in linearly: alpha runs from 0 to 255. Two
//! layouts are computed, matching the two ways a list is drawn: one full-width
//! rectangle sliding in from the right edge, and a pair of half-width
//! rectangles sliding in one after the other.

use crate::easing::PROGRESS_ONE;
use vstd::arithmetic::div_mod::{
    lemma_div_multiples_vanish, lemma_div_of0, lemma_div_pos_is_pos, lemma_multiply_divide_le,
};
use vstd::arithmetic::mul::{lemma_mul_basics, lemma_mul_inequality, lemma_mul_upper_bound};
use vstd::prelude::*;

verus! {

/// Position reached sliding from `start_x` towards `target_x`: the covered
/// share of the span grows linearly with the fixed-point progress.
pub open spec fn slid_x(start_x: int, target_x: int, progress: int) -> int {
    start_x - (start_x - target_x) * progress / (PROGRESS_ONE as int)
}

/// Alpha channel value for a fixed-point progress: 0 fully transparent up to
/// 255 fully opaque, linear in between.
pub open spec fn alpha_at(progress: int) -> int {
    255 * progress / (PROGRESS_ONE as int)
}

/// The x position of a row sliding from `start_x` leftwards to `target_x`,
/// `progress` of the way in.
pub fn slide_x(start_x: u64, target_x: u64, progress: u64) -> (x: u64)
    requires
        target_x <= start_x,
        progress <= PROGRESS_ONE,
    ensures
        x == slid_x(start_x as int, target_x as int, progress as int),
        target_x <= x <= start_x,
        progress == 0 ==> x == start_x,
        progress == PROGRESS_ONE ==> x == target_x,
{
    let span = start_x - target_x;
    proof {
        let s = span as int;
        let p = progress as int;
        let one = PROGRESS_ONE as int;
        lemma_mul_upper_bound(s, u64::MAX as int, p, one);
        lemma_mul_inequality(p, one, s);
        lemma_div_pos_is_pos(s * p, one);
        assert(s * p == p * s) by (nonlinear_arith);
        assert(one * s == s * one) by (nonlinear_arith);
        lemma_multiply_divide_le(s * p, one, s);
        if progress == 0 {
            lemma_mul_basics(s);
            lemma_div_of0(one);
        }
        if progress == PROGRESS_ONE {
            lemma_div_multiples_vanish(s, one);
        }
    }
    let covered = (((span as u128) * (progress as u128)) / (PROGRESS_ONE as u128)) as u64;
    start_x - covered
}

/// The alpha value of a row `progress` of the way in.
pub fn alpha_of(progress: u64) -> (a: u8)
    requires
        progress <= PROGRESS_ONE,
    ensures
        a == alpha_at(progress as int),
        progress == 0 ==> a == 0,
        progress == PROGRESS_ONE ==> a == 255,
{
    let wide = 255 * progress / PROGRESS_ONE;
    proof {
        let p = progress as int;
        let one = PROGRESS_ONE as int;
        lemma_div_pos_is_pos(255 * p, one);
        lemma_multiply_divide_le(255 * p, one, 255);
        if progress == PROGRESS_ONE {
            lemma_div_multiples_vanish(255, one);
        }
    }
    wide as u8
}

/// Paint parameters of one row drawn as a single full-width rectangle that
/// slides in from the right edge of its allotted rectangle.
pub struct SlideFrame {
    pub x: u64,
    pub alpha: u8,
}

/// Frame geometry for the full-width layout: the rectangle starts at
/// `left + width` and comes to rest at `left`.
pub fn slide_frame(left: u64, width: u64, progress: u64) -> (f: SlideFrame)
    requires
        left + width <= u64::MAX,
        progress <= PROGRESS_ONE,
    ensures
        f.x == slid_x(left + width, left as int, progress as int),
        f.alpha == alpha_at(progress as int),
        left <= f.x <= left + width,
{
    SlideFrame { x: slide_x(left + width, left, progress), alpha: alpha_of(progress) }
}

/// Paint parameters of one row drawn as two half-width rectangles: the left
/// one slides from the middle to the left edge, the right one from the right
/// edge to the middle.
pub struct SplitFrame {
    pub x_left: u64,
    pub x_right: u64,
    pub half_width: u64,
    pub alpha: u8,
}

/// Frame geometry for the split layout over the row rectangle starting at
/// `left` with the given `width`.
pub fn split_frame(left: u64, width: u64, progress: u64) -> (f: SplitFrame)
    requires
        left + width <= u64::MAX,
        progress <= PROGRESS_ONE,
    ensures
        f.half_width == width / 2,
        f.x_left == slid_x(left + width / 2, left as int, progress as int),
        f.x_right == slid_x(left + width, left + width / 2, progress as int),
        f.alpha == alpha_at(progress as int),
        left <= f.x_left <= left + width / 2,
        left + width / 2 <= f.x_right <= left + width,
{
    let half_width = width / 2;
    let x_left = slide_x(left + half_width, left, progress);
    let x_right = slide_x(left + width, left + half_width, progress);
    SplitFrame { x_left, x_right, half_width, alpha: alpha_of(progress) }
}

} // verus!

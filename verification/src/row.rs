//! One display row and its animation wrapper.
//!
//! An `AnimatedRow` carries the immutable payload plus its animation
//! parameters, and caches the progress and state of the last per-frame tick.
//! Both caches are pure functions of the tick's timestamp, which is what makes
//! ticking idempotent.

use crate::easing::{
    elapsed_ms, lemma_progress_bounds, lemma_progress_monotone, progress_at, progress_scaled,
    state_at, state_scaled, AnimState, PROGRESS_ONE,
};
use vstd::prelude::*;

verus! {

/// Immutable display payload of one row: a version label and a path.
pub struct RowData {
    pub version: String,
    pub path: String,
}

impl RowData {
    /// Builds a row payload from its two labels.
    pub fn new(version: String, path: String) -> (r: RowData)
        ensures
            r.version == version,
            r.path == path,
    {
        RowData { version, path }
    }
}

/// One row together with its animation parameters and the progress and state
/// cached by the last tick.
pub struct AnimatedRow {
    pub data: RowData,
    pub start_ms: u64,
    pub duration_ms: u64,
    pub delay_ms: u64,
    pub progress: u64,
    pub state: AnimState,
}

impl AnimatedRow {
    /// The value this row takes after a tick at `now_ms`: parameters and
    /// payload kept, progress and state recomputed from the timestamp alone.
    pub open spec fn ticked(self, now_ms: u64) -> AnimatedRow {
        let e = elapsed_ms(now_ms as int, self.start_ms as int);
        AnimatedRow {
            progress: progress_at(e, self.delay_ms as int, self.duration_ms as int) as u64,
            state: state_at(e, self.delay_ms as int, self.duration_ms as int),
            ..self
        }
    }

    /// A freshly built row: its caches hold the values for the instant the
    /// list started, that is for zero elapsed time.
    pub open spec fn fresh(
        data: RowData,
        start_ms: u64,
        duration_ms: u64,
        delay_ms: u64,
    ) -> AnimatedRow {
        (AnimatedRow {
            data,
            start_ms,
            duration_ms,
            delay_ms,
            progress: 0,
            state: AnimState::Waiting,
        }).ticked(start_ms)
    }

    /// Builds a row that starts animating `delay_ms` after `start_ms` and
    /// slides in over `duration_ms`.
    pub fn new(row_data: RowData, start_ms: u64, duration_ms: u64, delay_ms: u64) -> (r:
        AnimatedRow)
        ensures
            r == AnimatedRow::fresh(row_data, start_ms, duration_ms, delay_ms),
    {
        let mut r = AnimatedRow {
            data: row_data,
            start_ms,
            duration_ms,
            delay_ms,
            progress: 0,
            state: AnimState::Waiting,
        };
        r.tick(start_ms);
        r
    }

    /// Recomputes the cached progress and state for the frame at `now_ms`.
    pub fn tick(&mut self, now_ms: u64)
        ensures
            *final(self) == old(self).ticked(now_ms),
    {
        let elapsed = if now_ms >= self.start_ms {
            now_ms - self.start_ms
        } else {
            0
        };
        self.progress = progress_scaled(elapsed, self.delay_ms, self.duration_ms);
        self.state = state_scaled(elapsed, self.delay_ms, self.duration_ms);
    }

    /// Progress of this row at `now_ms`, in fixed point, independent of any
    /// cached values.
    pub fn get_progress(&self, now_ms: u64) -> (p: u64)
        ensures
            p == progress_at(
                elapsed_ms(now_ms as int, self.start_ms as int),
                self.delay_ms as int,
                self.duration_ms as int,
            ),
            p <= PROGRESS_ONE,
    {
        let elapsed = if now_ms >= self.start_ms {
            now_ms - self.start_ms
        } else {
            0
        };
        progress_scaled(elapsed, self.delay_ms, self.duration_ms)
    }

    /// Ticking is idempotent: a second tick at the same timestamp changes
    /// nothing beyond what the timestamp already determined.
    pub proof fn lemma_tick_idempotent(self, now_ms: u64)
        ensures
            self.ticked(now_ms).ticked(now_ms) == self.ticked(now_ms),
    {
    }

    /// The cached progress never decreases from one tick to a later one.
    pub proof fn lemma_tick_monotone(self, n1: u64, n2: u64)
        requires
            n1 <= n2,
        ensures
            self.ticked(n1).progress <= self.ticked(n2).progress,
    {
        let e1 = elapsed_ms(n1 as int, self.start_ms as int);
        let e2 = elapsed_ms(n2 as int, self.start_ms as int);
        lemma_progress_bounds(e1, self.delay_ms as int, self.duration_ms as int);
        lemma_progress_bounds(e2, self.delay_ms as int, self.duration_ms as int);
        lemma_progress_monotone(e1, e2, self.delay_ms as int, self.duration_ms as int);
    }
}

} // verus!

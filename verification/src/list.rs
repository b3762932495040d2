//! The ordered list of animated rows.
//!
//! A list is rebuilt wholesale whenever new payloads arrive: row `i` gets a
//! delay of `i * stagger_delay_ms`, so rows begin animating one after another.
//! Each frame, `tick_all` re-derives every row from the frame's timestamp and
//! reports whether the host must keep requesting repaints.

use crate::easing::AnimState;
use crate::row::{AnimatedRow, RowData};
use vstd::arithmetic::mul::lemma_mul_inequality;
use vstd::prelude::*;

verus! {

/// Height every row is laid out with, in whole pixels.
pub const ROW_HEIGHT: u64 = 60;

/// An ordered sequence of animated rows sharing one row height.
pub struct AnimatedRowList {
    pub rows: Vec<AnimatedRow>,
    pub row_height: u64,
}

/// What a list freshly built from `rows` at `start_ms` looks like: one
/// animated row per payload, in order, all sharing the start instant and the
/// duration, with a delay of `i * stagger_ms` for row `i`.
pub open spec fn fresh_list(
    l: AnimatedRowList,
    rows: Seq<RowData>,
    start_ms: u64,
    duration_ms: u64,
    stagger_ms: u64,
) -> bool {
    &&& l.row_height == ROW_HEIGHT
    &&& l.rows@.len() == rows.len()
    &&& rows.len() * stagger_ms <= u64::MAX
    &&& forall|i: int|
        0 <= i < rows.len() ==> l.rows@[i] == AnimatedRow::fresh(
            rows[i],
            start_ms,
            duration_ms,
            (i * stagger_ms) as u64,
        )
}

impl AnimatedRowList {
    /// Builds the animated list for the given payloads: row `i` starts
    /// animating `i * stagger_delay_ms` after `start_ms` and slides in over
    /// `animation_duration_ms`.
    pub fn new(
        rows: Vec<RowData>,
        start_ms: u64,
        animation_duration_ms: u64,
        stagger_delay_ms: u64,
    ) -> (r: AnimatedRowList)
        requires
            rows@.len() * stagger_delay_ms <= u64::MAX,
        ensures
            fresh_list(r, rows@, start_ms, animation_duration_ms, stagger_delay_ms),
            r.rows@.len() == rows@.len(),
            forall|i: int|
                0 <= i < rows@.len() ==> r.rows@[i].delay_ms == i * stagger_delay_ms
                    && r.rows@[i].data == rows@[i],
    {
        let ghost g = rows@;
        let mut rows = rows;
        let mut animated: Vec<AnimatedRow> = Vec::new();
        while rows.len() > 0
            invariant
                animated@.len() + rows@.len() == g.len(),
                rows@ == g.subrange(animated@.len() as int, g.len() as int),
                g.len() * stagger_delay_ms <= u64::MAX,
                forall|j: int|
                    0 <= j < animated@.len() ==> animated@[j] == AnimatedRow::fresh(
                        g[j],
                        start_ms,
                        animation_duration_ms,
                        (j * stagger_delay_ms) as u64,
                    ),
            decreases rows@.len(),
        {
            let ghost k = animated@.len() as int;
            let data = rows.remove(0);
            proof {
                assert(data == g[k]);
                assert(rows@ =~= g.subrange(k + 1, g.len() as int));
                lemma_mul_inequality(k + 1, g.len() as int, stagger_delay_ms as int);
                lemma_mul_inequality(k, k + 1, stagger_delay_ms as int);
            }
            let idx = animated.len();
            let delay = (idx as u64) * stagger_delay_ms;
            let ar = AnimatedRow::new(data, start_ms, animation_duration_ms, delay);
            animated.push(ar);
        }
        proof {
            assert forall|i: int| 0 <= i < g.len() implies 0 <= #[trigger] (i * stagger_delay_ms)
                <= u64::MAX by {
                lemma_mul_inequality(0, i, stagger_delay_ms as int);
                lemma_mul_inequality(i, g.len() as int, stagger_delay_ms as int);
            }
        }
        AnimatedRowList { rows: animated, row_height: ROW_HEIGHT }
    }

    /// Number of rows in the list.
    pub fn len(&self) -> (n: usize)
        ensures
            n == self.rows@.len(),
    {
        self.rows.len()
    }

    /// The row at position `i`.
    pub fn get(&self, i: usize) -> (r: &AnimatedRow)
        requires
            i < self.rows@.len(),
        ensures
            *r == self.rows@[i as int],
    {
        &self.rows[i]
    }

    /// Per-frame update: re-derives every row's progress and state for the
    /// frame at `now_ms`, and reports whether some row is still short of done,
    /// that is whether the host must keep requesting repaints.
    pub fn tick_all(&mut self, now_ms: u64) -> (needs_redraw: bool)
        ensures
            final(self).row_height == old(self).row_height,
            final(self).rows@.len() == old(self).rows@.len(),
            forall|i: int|
                0 <= i < old(self).rows@.len() ==> final(self).rows@[i] == old(self).rows@[i]
                    .ticked(now_ms),
            needs_redraw <==> exists|i: int|
                0 <= i < final(self).rows@.len() && !(final(self).rows@[i].state is Done),
    {
        let mut needs_redraw = false;
        let n = self.rows.len();
        let mut i: usize = 0;
        while i < n
            invariant
                i <= n,
                n == self.rows@.len(),
                self.rows@.len() == old(self).rows@.len(),
                self.row_height == old(self).row_height,
                forall|j: int|
                    0 <= j < i ==> self.rows@[j] == old(self).rows@[j].ticked(now_ms),
                forall|j: int| i <= j < n ==> self.rows@[j] == old(self).rows@[j],
                needs_redraw <==> exists|j: int|
                    0 <= j < i && !(self.rows@[j].state is Done),
            decreases n - i,
        {
            let ghost prev = self.rows@;
            self.rows[i].tick(now_ms);
            proof {
                assert(forall|j: int| 0 <= j < n && j != i ==> self.rows@[j] == prev[j]);
            }
            let st = self.rows[i].state;
            if !matches!(st, AnimState::Done) {
                needs_redraw = true;
                proof {
                    assert(!(self.rows@[i as int].state is Done));
                }
            }
            i = i + 1;
        }
        needs_redraw
    }
}

/// Uniform stagger orders starts: in a freshly built list, a later row never
/// leaves the waiting state at a frame where an earlier row is still waiting,
/// whatever the frame's timestamp.
pub proof fn lemma_stagger_order(
    l: AnimatedRowList,
    rows: Seq<RowData>,
    start_ms: u64,
    duration_ms: u64,
    stagger_ms: u64,
    i: int,
    j: int,
    now_ms: u64,
)
    requires
        fresh_list(l, rows, start_ms, duration_ms, stagger_ms),
        0 <= i <= j < rows.len(),
        !(l.rows@[j].ticked(now_ms).state is Waiting),
    ensures
        !(l.rows@[i].ticked(now_ms).state is Waiting),
{
    lemma_mul_inequality(i, j, stagger_ms as int);
    lemma_mul_inequality(j, rows.len() as int, stagger_ms as int);
}

} // verus!

//! The clamped position accumulator at the heart of progress reporting.
//!
//! A position is a fixed-point percentage: `POS_SCALE` sub-units make one
//! percentage point, and the accumulator never exceeds `POS_LIMIT`
//! (one hundred points). Updates go through [`ProgressPos::add`], which
//! clamps at the ceiling; exclusive access (`&mut`) serializes every
//! read-modify-write, so no update is lost or applied in part.

use vstd::prelude::*;

verus! {

/// Sub-units per percentage point of position.
pub const POS_SCALE: u64 = 1000;

/// The clamp ceiling: one hundred percentage points.
pub const POS_LIMIT: u64 = 100 * POS_SCALE;

/// One clamped increment: `min(pos + delta, POS_LIMIT)`.
pub open spec fn clamped_add(pos: int, delta: int) -> int {
    if pos + delta > POS_LIMIT {
        POS_LIMIT as int
    } else {
        pos + delta
    }
}

/// The position reached after applying every increment of `deltas`, in
/// order, starting from `pos`, clamping at each step.
pub open spec fn apply_all(pos: int, deltas: Seq<int>) -> int
    decreases deltas.len(),
{
    if deltas.len() == 0 {
        pos
    } else {
        clamped_add(apply_all(pos, deltas.drop_last()), deltas.last())
    }
}

/// The plain (unclamped) sum of a sequence of increments.
pub open spec fn sum_all(deltas: Seq<int>) -> int
    decreases deltas.len(),
{
    if deltas.len() == 0 {
        0
    } else {
        sum_all(deltas.drop_last()) + deltas.last()
    }
}

/// A sum of non-negative increments is non-negative.
pub proof fn lemma_sum_all_nonneg(deltas: Seq<int>)
    requires
        forall|i: int| 0 <= i < deltas.len() ==> deltas[i] >= 0,
    ensures
        sum_all(deltas) >= 0,
    decreases deltas.len(),
{
    if deltas.len() > 0 {
        lemma_sum_all_nonneg(deltas.drop_last());
    }
}

/// Applying increments keeps the position between where it started and the
/// ceiling: it never decreases and never exceeds `POS_LIMIT`.
pub proof fn lemma_apply_all_bounds(pos: int, deltas: Seq<int>)
    requires
        0 <= pos <= POS_LIMIT,
        forall|i: int| 0 <= i < deltas.len() ==> deltas[i] >= 0,
    ensures
        pos <= apply_all(pos, deltas) <= POS_LIMIT,
    decreases deltas.len(),
{
    if deltas.len() > 0 {
        lemma_apply_all_bounds(pos, deltas.drop_last());
    }
}

/// Applying a whole sequence of non-negative increments lands on the clamped
/// sum: `apply_all(pos, deltas) == min(pos + sum_all(deltas), POS_LIMIT)`.
pub proof fn lemma_apply_all_is_clamped_sum(pos: int, deltas: Seq<int>)
    requires
        0 <= pos <= POS_LIMIT,
        forall|i: int| 0 <= i < deltas.len() ==> deltas[i] >= 0,
    ensures
        apply_all(pos, deltas) == clamped_add(pos, sum_all(deltas)),
    decreases deltas.len(),
{
    if deltas.len() > 0 {
        lemma_apply_all_is_clamped_sum(pos, deltas.drop_last());
        lemma_sum_all_nonneg(deltas.drop_last());
    }
}

/// For every sequence of non-negative increments applied from zero, the
/// final position is exactly `min(sum_all(deltas), POS_LIMIT)`.
pub proof fn lemma_total_from_zero(deltas: Seq<int>)
    requires
        forall|i: int| 0 <= i < deltas.len() ==> deltas[i] >= 0,
    ensures
        apply_all(0, deltas) == if sum_all(deltas) > POS_LIMIT {
            POS_LIMIT as int
        } else {
            sum_all(deltas)
        },
{
    lemma_apply_all_is_clamped_sum(0, deltas);
    lemma_sum_all_nonneg(deltas);
}

/// Clamp idempotence: once the position has reached the ceiling, any further
/// increment leaves it at exactly `POS_LIMIT`.
pub proof fn lemma_clamp_idempotent(delta: int)
    requires
        delta >= 0,
    ensures
        clamped_add(POS_LIMIT as int, delta) == POS_LIMIT,
{
}

/// Monotonicity: across any sequence of increments, the position read after
/// a longer prefix is at least the position read after a shorter one.
pub proof fn lemma_prefix_monotone(pos: int, deltas: Seq<int>, i: int, j: int)
    requires
        0 <= pos <= POS_LIMIT,
        forall|k: int| 0 <= k < deltas.len() ==> deltas[k] >= 0,
        0 <= i <= j <= deltas.len(),
    ensures
        apply_all(pos, deltas.take(i)) <= apply_all(pos, deltas.take(j)),
    decreases j - i,
{
    if i < j {
        lemma_prefix_monotone(pos, deltas, i, j - 1);
        assert(deltas.take(j).drop_last() =~= deltas.take(j - 1));
        assert forall|k: int| 0 <= k < deltas.take(j - 1).len() implies #[trigger] deltas.take(j - 1)[k] >= 0 by {
            assert(deltas.take(j - 1)[k] == deltas[k]);
        }
        lemma_apply_all_bounds(pos, deltas.take(j - 1));
    }
}

/// The position tracker: a single scalar in `[0, POS_LIMIT]` once any update
/// has run, mutated only through the clamping [`ProgressPos::add`].
pub struct ProgressPos {
    pos: u64,
}

impl View for ProgressPos {
    type V = int;

    closed spec fn view(&self) -> int {
        self.pos as int
    }
}

impl ProgressPos {
    /// Construct a tracker holding the given starting value, unvalidated;
    /// callers are expected to start at zero.
    pub fn new(value: u64) -> (r: Self)
        ensures
            r@ == value as int,
    {
        ProgressPos { pos: value }
    }

    /// The current position, exactly as the latest completed `add` left it.
    pub fn load(&self) -> (r: u64)
        ensures
            r as int == self@,
    {
        self.pos
    }

    /// Increment the position, clamping the result so it never exceeds
    /// `POS_LIMIT`.
    pub fn add(&mut self, delta: u64)
        ensures
            final(self)@ == clamped_add(old(self)@, delta as int),
            final(self)@ <= POS_LIMIT,
    {
        if delta >= POS_LIMIT {
            self.pos = POS_LIMIT;
        } else if self.pos > POS_LIMIT - delta {
            self.pos = POS_LIMIT;
        } else {
            self.pos = self.pos + delta;
        }
    }
}

} // verus!

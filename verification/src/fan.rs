//! Triangle-fan index synthesis.
//!
//! A fan over `count` consecutive vertices beginning at `start` is drawn as
//! `count - 2` indexed triangles that all share the vertex `start`.

use vstd::prelude::*;

verus! {

/// Number of indices that a fan over `count` vertices needs.
pub open spec fn fan_index_count(count: int) -> int {
    if count >= 3 {
        3 * (count - 2)
    } else {
        0
    }
}

/// The `k`-th index of a fan whose first vertex is `start`.
///
/// Triangle `k / 3` is `(start, start + k / 3 + 1, start + k / 3 + 2)`.
pub open spec fn fan_index_at(start: int, k: int) -> int {
    if k % 3 == 0 {
        start
    } else if k % 3 == 1 {
        start + k / 3 + 1
    } else {
        start + k / 3 + 2
    }
}

/// The index list of a fan over the vertices `start .. start + count`.
pub open spec fn fan_indices(start: u32, count: u32) -> Seq<u32> {
    Seq::new(fan_index_count(count as int) as nat, |k: int| fan_index_at(start as int, k) as u32)
}

/// Whether the fan over `start .. start + count` can be written with `u32`
/// indices and counted in a `usize`.
pub open spec fn fan_fits(start: u32, count: u32) -> bool {
    count >= 3 ==> start + count - 1 <= u32::MAX && 3 * (count - 2) <= usize::MAX
}

/// Index buffers that can take the indices of a triangle fan.
pub trait GPUVecExt: Sized {
    /// The indices held, in order.
    spec fn indices(&self) -> Seq<u32>;

    /// Appends the indices of the fan over `start .. start + count` and
    /// returns how many were appended.
    fn extend_with_triange_fan_indices_cw(&mut self, start: u32, count: u32) -> (added: usize)
        requires
            fan_fits(start, count),
        ensures
            final(self).indices() == old(self).indices() + fan_indices(start, count),
            added == fan_index_count(count as int),
    ;
}

impl GPUVecExt for Vec<u32> {
    open spec fn indices(&self) -> Seq<u32> {
        self@
    }

    fn extend_with_triange_fan_indices_cw(&mut self, start: u32, count: u32) -> (added: usize) {
        let mut added: usize = 0;
        if count < 3 {
            return added;
        }
        let mut index: u32 = 1;
        while index < count - 1
            invariant
                count >= 3,
                1 <= index <= count - 1,
                start + count - 1 <= u32::MAX,
                3 * (count - 2) <= usize::MAX,
                added == 3 * (index - 1),
                self@.len() == old(self)@.len() + added,
                forall|k: int| 0 <= k < old(self)@.len() ==> self@[k] == old(self)@[k],
                forall|k: int|
                    0 <= k < added ==> self@[old(self)@.len() + k] == fan_index_at(
                        start as int,
                        k,
                    ) as u32,
            decreases count - index,
        {
            self.push(start);
            self.push(start + index);
            self.push(start + index + 1);
            added += 3;
            index += 1;
        }
        assert(self@ =~= old(self)@ + fan_indices(start, count));
        added
    }
}

/// A fan over `count >= 3` vertices has exactly `3 * (count - 2)` indices,
/// and triangle `i` (counted from 1) is `(start, start + i, start + i + 1)`.
pub proof fn lemma_fan_triangles(start: u32, count: u32, i: int)
    requires
        count >= 3,
        start + count - 1 <= u32::MAX,
        1 <= i < count - 1,
    ensures
        fan_indices(start, count).len() == 3 * (count - 2),
        fan_indices(start, count)[3 * (i - 1)] == start,
        fan_indices(start, count)[3 * (i - 1) + 1] == start + i,
        fan_indices(start, count)[3 * (i - 1) + 2] == start + i + 1,
{
}

/// The shape of a fan does not depend on where it starts: moving `start`
/// by `shift` moves every index by `shift`.
pub proof fn lemma_fan_translation(start: u32, shift: u32, count: u32, k: int)
    requires
        count >= 3,
        start + shift + count - 1 <= u32::MAX,
        0 <= k < 3 * (count - 2),
    ensures
        fan_indices((start + shift) as u32, count).len() == fan_indices(start, count).len(),
        fan_indices((start + shift) as u32, count)[k] == fan_indices(start, count)[k] + shift,
{
}

} // verus!

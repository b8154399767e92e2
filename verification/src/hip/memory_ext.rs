//! Element types the device sorting kernels are compiled for, and the
//! launch plans of the device sort and of the sortedness check.
use vstd::prelude::*;
use crate::hip::error::{Error, Result, HIP_ERROR_OUT_OF_MEMORY};
use crate::hip::utils::Dim3;
use crate::hip::sort_model::{lemma_rounds_sort, pair_left, rounds_sort};

verus! {

/// Marker for element types that device memory can be sorted by.
pub trait GPUSortAllowed {}

impl GPUSortAllowed for i8 {}

impl GPUSortAllowed for i16 {}

impl GPUSortAllowed for i32 {}

impl GPUSortAllowed for i64 {}

impl GPUSortAllowed for u8 {}

impl GPUSortAllowed for u16 {}

impl GPUSortAllowed for u32 {}

impl GPUSortAllowed for u64 {}

/// Launch plan of the odd-even transposition sort on the device: each round
/// runs the even phase, whose block `k` orders positions `2k` and `2k + 1`,
/// then the odd phase, whose block `k` orders positions `2k + 1` and
/// `2k + 2`; every block is a single thread.
pub struct SortSchedule {
    /// Number of rounds, each an even phase followed by an odd phase.
    pub rounds: u32,
    /// Grid of the even phase: one block per pair `(2k, 2k + 1)`.
    pub even_grid: Dim3,
    /// Grid of the odd phase: one block per pair `(2k + 1, 2k + 2)`.
    pub odd_grid: Dim3,
    /// Block of both phases.
    pub block: Dim3,
}

/// Whether the even phase of a schedule compares positions `j` and `j + 1`.
pub open spec fn even_phase_compares(even_pairs: int, j: int) -> bool {
    j % 2 == 0 && 0 <= j / 2 < even_pairs
}

/// Whether the odd phase of a schedule compares positions `j` and `j + 1`.
pub open spec fn odd_phase_compares(odd_pairs: int, j: int) -> bool {
    j % 2 == 1 && 0 <= (j - 1) / 2 < odd_pairs
}

/// Plan of the device sort of `count` elements (`count` at least one): an
/// even grid of `count / 2` blocks, an odd grid of `(count - 1) / 2` blocks,
/// and enough rounds that the phases number at least `count` (none for a
/// single element). Block `k` of the even grid orders exactly the pair
/// `(2k, 2k + 1)` of the model, block `k` of the odd grid the pair
/// `(2k + 1, 2k + 2)`; every pair a block touches lies inside the data; and
/// the rounds sort any data of that length, ascending or descending.
pub fn sort_schedule(count: u32) -> (r: SortSchedule)
    requires
        count >= 1,
    ensures
        r.rounds == if count == 1 {
            0
        } else {
            (count + 1) / 2
        },
        r.even_grid.x == count / 2 && r.even_grid.y == 1 && r.even_grid.z == 1,
        r.odd_grid.x == (count - 1) / 2 && r.odd_grid.y == 1 && r.odd_grid.z == 1,
        r.block.x == 1 && r.block.y == 1 && r.block.z == 1,
        2 * r.even_grid.x <= count,
        2 * r.odd_grid.x + 1 <= count,
        forall|j: int|
            #![trigger pair_left(count as int, 0, j)]
            #![trigger pair_left(count as int, 1, j)]
            (pair_left(count as int, 0, j) <==> even_phase_compares(r.even_grid.x as int, j)) && (
            pair_left(count as int, 1, j) <==> odd_phase_compares(r.odd_grid.x as int, j)),
        forall|j: int|
            0 <= j && j + 1 < count ==> (even_phase_compares(r.even_grid.x as int, j)
                != odd_phase_compares(r.odd_grid.x as int, j)),
        count == 1 || 2 * r.rounds >= count,
        forall|s: Seq<int>, ascending: bool|
            s.len() == count ==> #[trigger] rounds_sort(s, r.rounds as nat, ascending),
{
    let pairs = count / 2;
    let rounds = if count == 1 {
        0
    } else {
        pairs + count % 2
    };
    proof {
        assert forall|s: Seq<int>, ascending: bool| s.len() == count implies #[trigger] rounds_sort(
            s,
            rounds as nat,
            ascending,
        ) by {
            lemma_rounds_sort(s, rounds as nat, ascending);
        }
    }
    SortSchedule {
        rounds,
        even_grid: Dim3::new_1d(pairs),
        odd_grid: Dim3::new_1d((count - 1) / 2),
        block: Dim3::new_1d(1),
    }
}

/// Number of adjacent pairs the sortedness check of `count` elements
/// compares, one block each: `count - 1`. Empty memory cannot be checked;
/// its flag buffer would need `usize::MAX` entries, which the device cannot
/// allocate.
pub fn check_sorted_pairs(count: usize) -> (r: Result<usize>)
    ensures
        r is Err <==> count == 0,
        r matches Ok(p) ==> p == count - 1,
        r matches Err(e) ==> e@ == HIP_ERROR_OUT_OF_MEMORY,
{
    if count == 0 {
        Err(Error::new(HIP_ERROR_OUT_OF_MEMORY))
    } else {
        Ok(count - 1)
    }
}

/// Whether every adjacent pair was found in order, given one flag per pair.
pub fn all_pairs_ordered(flags: &[bool]) -> (r: bool)
    ensures
        r == forall|i: int| 0 <= i < flags@.len() ==> #[trigger] flags@[i],
{
    let mut i: usize = 0;
    while i < flags.len()
        invariant
            i <= flags@.len(),
            forall|k: int| 0 <= k < i ==> #[trigger] flags@[k],
        decreases flags@.len() - i,
    {
        if !flags[i] {
            return false;
        }
        i += 1;
    }
    true
}

} // verus!

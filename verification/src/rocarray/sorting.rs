//! Element types the sorting kernels accept.
use vstd::prelude::*;
use crate::hip::memory_ext::GPUSortAllowed;

verus! {

/// Element types that the array sorting kernels are compiled for.
pub trait Sortable: Copy + Default + GPUSortAllowed + 'static {
    /// Name of the element type in kernel source.
    const TYPE_NAME: &'static str;
}

impl Sortable for i32 {
    const TYPE_NAME: &'static str = "int";
}

impl Sortable for u32 {
    const TYPE_NAME: &'static str = "uint";
}

/// How a partial sort of the first `k` of `len` elements runs.
#[derive(Debug, PartialEq, Eq, Structural)]
pub enum PartialSortPlan {
    /// `k` covers the whole array: the full ascending sort runs instead.
    Full,
    /// The partial sort kernel runs in a single one-thread block, with the
    /// length and `k` passed as 32-bit values.
    FirstK { len: u32, k: u32 },
}

/// Plan of the partial sort of the first `k` of `len` elements.
pub fn partial_sort_plan(len: usize, k: usize) -> (r: PartialSortPlan)
    ensures
        k >= len ==> r == PartialSortPlan::Full,
        k < len ==> r == (PartialSortPlan::FirstK { len: len as u32, k: k as u32 }),
{
    if k >= len {
        PartialSortPlan::Full
    } else {
        PartialSortPlan::FirstK { len: len as u32, k: k as u32 }
    }
}

} // verus!

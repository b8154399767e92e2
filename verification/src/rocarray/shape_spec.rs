//! Mathematical model of array shapes: products of dimensions, row-major
//! strides, flat/multidimensional index conversion and broadcasting, with
//! the lemmas the executable code relies on.
use vstd::prelude::*;
use vstd::arithmetic::div_mod::lemma_fundamental_div_mod_converse;

verus! {

/// Product of all entries of `s`.
pub open spec fn prod(s: Seq<usize>) -> int
    decreases s.len(),
{
    if s.len() == 0 {
        1
    } else {
        s[0] as int * prod(s.drop_first())
    }
}

/// Product of the dimensions from position `k` to the end.
pub open spec fn suffix_prod(dims: Seq<usize>, k: int) -> int {
    prod(dims.skip(k))
}

/// Every suffix product of `dims` fits in a `usize`; this is exactly what
/// computing the row-major strides needs.
pub open spec fn dims_fit(dims: Seq<usize>) -> bool {
    forall|k: int| 0 <= k <= dims.len() ==> #[trigger] suffix_prod(dims, k) <= usize::MAX
}

/// Row-major strides: the stride of axis `i` is the product of all later
/// dimensions.
pub open spec fn strides_of(dims: Seq<usize>) -> Seq<usize> {
    Seq::new(dims.len(), |i: int| suffix_prod(dims, i + 1) as usize)
}

/// No dimension after the first is zero, so that every stride is positive.
pub open spec fn trailing_dims_nonzero(dims: Seq<usize>) -> bool {
    forall|k: int| 1 <= k < dims.len() ==> #[trigger] dims[k] > 0
}

/// Remainder left after peeling off the first `k` axes of a flat index.
pub open spec fn unravel_rem(strides: Seq<usize>, index: int, k: int) -> int
    decreases k,
{
    if k <= 0 {
        index
    } else {
        unravel_rem(strides, index, k - 1) % (strides[k - 1] as int)
    }
}

/// Multidimensional indices of a flat index for the given strides.
pub open spec fn unravel_spec(strides: Seq<usize>, index: int) -> Seq<usize> {
    Seq::new(strides.len(), |k: int| (unravel_rem(strides, index, k) / (strides[k] as int)) as usize)
}

/// Sum of `idx[j] * strides[j]` over the first `k` axes.
pub open spec fn weighted_sum(idx: Seq<usize>, strides: Seq<usize>, k: int) -> int
    decreases k,
{
    if k <= 0 {
        0
    } else {
        weighted_sum(idx, strides, k - 1) + idx[k - 1] as int * strides[k - 1] as int
    }
}

/// Every index is within its dimension.
pub open spec fn indices_in_bounds(dims: Seq<usize>, idx: Seq<usize>) -> bool {
    &&& idx.len() == dims.len()
    &&& forall|k: int| 0 <= k < idx.len() ==> #[trigger] idx[k] < dims[k]
}

/// Flat index of `idx` for the given dimensions, if `idx` addresses an
/// element of the array.
pub open spec fn ravel_spec(dims: Seq<usize>, idx: Seq<usize>) -> Option<usize> {
    if indices_in_bounds(dims, idx) {
        Some(weighted_sum(idx, strides_of(dims), idx.len() as int) as usize)
    } else {
        None
    }
}

/// Dimension `i` counted from the last axis; missing leading axes count as 1.
pub open spec fn dim_from_right(dims: Seq<usize>, i: int) -> usize {
    if 0 <= i < dims.len() {
        dims[dims.len() - 1 - i]
    } else {
        1
    }
}

/// Two dimensions can be broadcast against each other.
pub open spec fn dims_compatible(a: usize, b: usize) -> bool {
    a == b || a == 1 || b == 1
}

/// Number of axes of the broadcast of two shapes.
pub open spec fn broadcast_ndim(a: Seq<usize>, b: Seq<usize>) -> int {
    if a.len() >= b.len() { a.len() as int } else { b.len() as int }
}

/// The shapes agree, axis by axis from the right, up to dimensions of 1.
pub open spec fn broadcastable(a: Seq<usize>, b: Seq<usize>) -> bool {
    forall|i: int|
        0 <= i < broadcast_ndim(a, b) ==> #[trigger] dims_compatible(
            dim_from_right(a, i),
            dim_from_right(b, i),
        )
}

/// Larger of two dimensions.
pub open spec fn max_dim(a: usize, b: usize) -> usize {
    if a >= b { a } else { b }
}

/// Dimensions of the broadcast of `a` and `b`.
pub open spec fn broadcast_dims(a: Seq<usize>, b: Seq<usize>) -> Seq<usize> {
    let n = broadcast_ndim(a, b);
    Seq::new(
        n as nat,
        |k: int| max_dim(dim_from_right(a, n - 1 - k), dim_from_right(b, n - 1 - k)),
    )
}

pub proof fn lemma_prod_nonneg(s: Seq<usize>)
    ensures
        prod(s) >= 0,
    decreases s.len(),
{
    if s.len() > 0 {
        lemma_prod_nonneg(s.drop_first());
        assert(s[0] as int * prod(s.drop_first()) >= 0) by (nonlinear_arith)
            requires prod(s.drop_first()) >= 0;
    }
}

/// Peeling one axis off a suffix product.
pub proof fn lemma_suffix_step(dims: Seq<usize>, k: int)
    requires
        0 <= k < dims.len(),
    ensures
        suffix_prod(dims, k) == dims[k] as int * suffix_prod(dims, k + 1),
{
    assert(dims.skip(k).drop_first() =~= dims.skip(k + 1));
    assert(dims.skip(k)[0] == dims[k]);
}

/// The product of no dimensions is one.
pub proof fn lemma_suffix_end(dims: Seq<usize>)
    ensures
        suffix_prod(dims, dims.len() as int) == 1,
{
    assert(dims.skip(dims.len() as int) =~= Seq::<usize>::empty());
}

/// The full product is the first suffix product.
pub proof fn lemma_suffix_start(dims: Seq<usize>)
    ensures
        suffix_prod(dims, 0) == prod(dims),
{
    assert(dims.skip(0) =~= dims);
}

/// Suffix products are never negative.
pub proof fn lemma_suffix_nonneg(dims: Seq<usize>, k: int)
    ensures
        suffix_prod(dims, k) >= 0,
{
    lemma_prod_nonneg(dims.skip(k));
}

/// A zero suffix product makes the whole product zero.
pub proof fn lemma_suffix_zero_propagates(dims: Seq<usize>, k: int)
    requires
        0 <= k <= dims.len(),
        suffix_prod(dims, k) == 0,
    ensures
        suffix_prod(dims, 0) == 0,
    decreases k,
{
    if k > 0 {
        lemma_suffix_step(dims, k - 1);
        lemma_suffix_zero_propagates(dims, k - 1);
    }
}

/// When the trailing dimensions are positive, every stride is positive.
pub proof fn lemma_trailing_suffix_pos(dims: Seq<usize>, k: int)
    requires
        trailing_dims_nonzero(dims),
        1 <= k <= dims.len(),
    ensures
        suffix_prod(dims, k) > 0,
    decreases dims.len() - k,
{
    if k == dims.len() {
        lemma_suffix_end(dims);
    } else {
        lemma_trailing_suffix_pos(dims, k + 1);
        lemma_suffix_step(dims, k);
        let a = dims[k] as int;
        let b = suffix_prod(dims, k + 1);
        assert(a * b > 0) by (nonlinear_arith)
            requires a > 0, b > 0;
    }
}

/// A positive total product makes every suffix product positive.
pub proof fn lemma_pos_prod_suffix_pos(dims: Seq<usize>, k: int)
    requires
        suffix_prod(dims, 0) > 0,
        0 <= k <= dims.len(),
    ensures
        suffix_prod(dims, k) > 0,
{
    lemma_suffix_nonneg(dims, k);
    if suffix_prod(dims, k) == 0 {
        lemma_suffix_zero_propagates(dims, k);
    }
}

/// Each stride is the next stride times the next dimension, and the last
/// stride is one.
pub proof fn lemma_strides_row_major(dims: Seq<usize>, k: int)
    requires
        dims_fit(dims),
        0 <= k < dims.len(),
    ensures
        strides_of(dims)[k] as int == suffix_prod(dims, k + 1),
        k == dims.len() - 1 ==> strides_of(dims)[k] == 1,
        k + 1 < dims.len() ==> strides_of(dims)[k] as int == strides_of(dims)[k + 1] as int
            * dims[k + 1] as int,
{
    lemma_suffix_nonneg(dims, k + 1);
    assert(suffix_prod(dims, k + 1) <= usize::MAX);
    if k == dims.len() - 1 {
        lemma_suffix_end(dims);
    }
    if k + 1 < dims.len() {
        lemma_suffix_step(dims, k + 1);
        lemma_suffix_nonneg(dims, k + 2);
        assert(suffix_prod(dims, k + 2) <= usize::MAX);
        assert(dims[k + 1] as int * suffix_prod(dims, k + 2) == suffix_prod(dims, k + 2) * dims[k
            + 1] as int) by (nonlinear_arith);
    }
}

/// Partial weighted sums of in-range indices stay below the total product:
/// the first `m` terms add up to at most `prod - suffix_prod(m)`.
pub proof fn lemma_weighted_prefix_bound(dims: Seq<usize>, idx: Seq<usize>, m: int)
    requires
        dims_fit(dims),
        idx.len() == dims.len(),
        0 <= m <= dims.len(),
        forall|j: int| 0 <= j < m ==> #[trigger] idx[j] < dims[j],
    ensures
        0 <= weighted_sum(idx, strides_of(dims), m) <= suffix_prod(dims, 0) - suffix_prod(dims, m),
    decreases m,
{
    if m > 0 {
        lemma_weighted_prefix_bound(dims, idx, m - 1);
        lemma_strides_row_major(dims, m - 1);
        lemma_suffix_step(dims, m - 1);
        lemma_suffix_nonneg(dims, m);
        let x = idx[m - 1] as int;
        let d = dims[m - 1] as int;
        let p = suffix_prod(dims, m);
        assert(0 <= x * p <= (d - 1) * p && (d - 1) * p == d * p - p) by (nonlinear_arith)
            requires 0 <= x < d, p >= 0;
    }
}

/// Terms from axis `k` on add up to less than the `k`-th suffix product.
pub proof fn lemma_weighted_tail_bound(dims: Seq<usize>, idx: Seq<usize>, k: int)
    requires
        dims_fit(dims),
        indices_in_bounds(dims, idx),
        0 <= k <= dims.len(),
    ensures
        0 <= weighted_sum(idx, strides_of(dims), dims.len() as int) - weighted_sum(
            idx,
            strides_of(dims),
            k,
        ) < suffix_prod(dims, k),
    decreases dims.len() - k,
{
    let n = dims.len() as int;
    if k == n {
        lemma_suffix_end(dims);
    } else {
        lemma_weighted_tail_bound(dims, idx, k + 1);
        lemma_strides_row_major(dims, k);
        lemma_suffix_step(dims, k);
        lemma_suffix_nonneg(dims, k + 1);
        let x = idx[k] as int;
        let d = dims[k] as int;
        let p = suffix_prod(dims, k + 1);
        let t = weighted_sum(idx, strides_of(dims), n) - weighted_sum(idx, strides_of(dims), k + 1);
        assert(0 <= x * p + t < d * p) by (nonlinear_arith)
            requires 0 <= x < d, 0 <= t < p;
    }
}

/// Peeling axes off a flat index: what has been peeled plus what remains is
/// the index itself.
pub proof fn lemma_unravel_decomposes(dims: Seq<usize>, index: int, k: int)
    requires
        dims_fit(dims),
        0 <= index < suffix_prod(dims, 0),
        0 <= k <= dims.len(),
    ensures
        index == weighted_sum(unravel_spec(strides_of(dims), index), strides_of(dims), k)
            + unravel_rem(strides_of(dims), index, k),
        0 <= unravel_rem(strides_of(dims), index, k) < suffix_prod(dims, k),
    decreases k,
{
    let st = strides_of(dims);
    let u = unravel_spec(st, index);
    if k > 0 {
        lemma_unravel_decomposes(dims, index, k - 1);
        lemma_pos_prod_suffix_pos(dims, k);
        lemma_strides_row_major(dims, k - 1);
        lemma_suffix_step(dims, k - 1);
        let r = unravel_rem(st, index, k - 1);
        let s = st[k - 1] as int;
        let d = dims[k - 1] as int;
        assert(s > 0);
        let q = r / s;
        assert(r == q * s + r % s && 0 <= r % s < s) by (nonlinear_arith)
            requires s > 0, q == r / s;
        assert(u[k - 1] as int == q) by {
            assert(0 <= q <= r) by (nonlinear_arith)
                requires s > 0, r >= 0, q == r / s;
        }
        assert(q * s == u[k - 1] as int * st[k - 1] as int);
    }
}

/// Each peeled index lies within its dimension.
pub proof fn lemma_unravel_in_bounds(dims: Seq<usize>, index: int, k: int)
    requires
        dims_fit(dims),
        0 <= index < suffix_prod(dims, 0),
        0 <= k < dims.len(),
    ensures
        unravel_spec(strides_of(dims), index)[k] < dims[k],
{
    let st = strides_of(dims);
    lemma_unravel_decomposes(dims, index, k);
    lemma_pos_prod_suffix_pos(dims, k + 1);
    lemma_strides_row_major(dims, k);
    lemma_suffix_step(dims, k);
    let r = unravel_rem(st, index, k);
    let s = st[k] as int;
    let d = dims[k] as int;
    assert(r / s < d) by (nonlinear_arith)
        requires 0 <= r < d * s, s > 0;
    assert(0 <= r / s <= r) by (nonlinear_arith)
        requires s > 0, r >= 0;
}

/// Flattening the indices of a flat index gives the flat index back.
pub proof fn lemma_ravel_unravel(dims: Seq<usize>, index: int)
    requires
        dims_fit(dims),
        0 <= index < prod(dims),
    ensures
        ravel_spec(dims, unravel_spec(strides_of(dims), index)) == Some(index as usize),
{
    lemma_suffix_start(dims);
    let st = strides_of(dims);
    let u = unravel_spec(st, index);
    let n = dims.len() as int;
    assert forall|k: int| 0 <= k < u.len() implies #[trigger] u[k] < dims[k] by {
        lemma_unravel_in_bounds(dims, index, k);
    }
    lemma_unravel_decomposes(dims, index, n);
    lemma_suffix_end(dims);
    assert(unravel_rem(st, index, n) == 0);
    assert(index <= usize::MAX) by {
        assert(suffix_prod(dims, 0) <= usize::MAX);
    }
}

/// Splitting the flat index of in-range indices recovers those indices.
pub proof fn lemma_unravel_ravel(dims: Seq<usize>, idx: Seq<usize>)
    requires
        dims_fit(dims),
        indices_in_bounds(dims, idx),
    ensures
        ravel_spec(dims, idx) matches Some(flat) && unravel_spec(strides_of(dims), flat as int)
            == idx,
{
    let st = strides_of(dims);
    let n = dims.len() as int;
    let flat = weighted_sum(idx, st, n);
    lemma_weighted_tail_bound(dims, idx, 0);
    assert(weighted_sum(idx, st, 0) == 0);
    assert(suffix_prod(dims, 0) <= usize::MAX);
    assert forall|k: int| 0 <= k <= n implies #[trigger] unravel_rem(st, flat, k) == flat
        - weighted_sum(idx, st, k) by {
        lemma_unravel_rem_tail(dims, idx, k);
    }
    let u = unravel_spec(st, flat);
    assert forall|k: int| 0 <= k < n implies #[trigger] u[k] == idx[k] by {
        lemma_unravel_rem_tail(dims, idx, k);
        lemma_unravel_rem_tail(dims, idx, k + 1);
        lemma_weighted_tail_bound(dims, idx, k + 1);
        lemma_strides_row_major(dims, k);
        let p = suffix_prod(dims, k + 1);
        let t = flat - weighted_sum(idx, st, k + 1);
        lemma_fundamental_div_mod_converse(idx[k] as int * p + t, p, idx[k] as int, t);
        assert(idx[k] as int * p + t == t + p * idx[k] as int) by (nonlinear_arith);
        assert(idx[k] as int * p == idx[k] as int * st[k] as int);
    }
    assert(u =~= idx);
}

/// The remainder after `k` axes of the flat index of `idx` is the sum of the
/// remaining terms.
proof fn lemma_unravel_rem_tail(dims: Seq<usize>, idx: Seq<usize>, k: int)
    requires
        dims_fit(dims),
        indices_in_bounds(dims, idx),
        0 <= k <= dims.len(),
    ensures
        unravel_rem(strides_of(dims), weighted_sum(idx, strides_of(dims), dims.len() as int), k)
            == weighted_sum(idx, strides_of(dims), dims.len() as int) - weighted_sum(
            idx,
            strides_of(dims),
            k,
        ),
    decreases k,
{
    let st = strides_of(dims);
    let n = dims.len() as int;
    let flat = weighted_sum(idx, st, n);
    if k > 0 {
        lemma_unravel_rem_tail(dims, idx, k - 1);
        lemma_weighted_tail_bound(dims, idx, k);
        lemma_strides_row_major(dims, k - 1);
        let p = suffix_prod(dims, k);
        let t = flat - weighted_sum(idx, st, k);
        let x = idx[k - 1] as int;
        assert(x * p + t == t + p * x) by (nonlinear_arith);
        lemma_fundamental_div_mod_converse(x * p + t, p, x, t);
        assert(x * p == x * st[k - 1] as int);
    }
}

/// Broadcasting does not depend on the order of the two shapes.
pub proof fn lemma_broadcast_commutes(a: Seq<usize>, b: Seq<usize>)
    ensures
        broadcastable(a, b) == broadcastable(b, a),
        broadcast_dims(a, b) == broadcast_dims(b, a),
{
    assert(broadcast_dims(a, b) =~= broadcast_dims(b, a));
    if broadcastable(a, b) {
        assert forall|i: int| 0 <= i < broadcast_ndim(b, a) implies #[trigger] dims_compatible(
            dim_from_right(b, i),
            dim_from_right(a, i),
        ) by {
            assert(dims_compatible(dim_from_right(a, i), dim_from_right(b, i)));
        }
    }
    if broadcastable(b, a) {
        assert forall|i: int| 0 <= i < broadcast_ndim(a, b) implies #[trigger] dims_compatible(
            dim_from_right(a, i),
            dim_from_right(b, i),
        ) by {
            assert(dims_compatible(dim_from_right(b, i), dim_from_right(a, i)));
        }
    }
}

/// A shape broadcasts with itself, to itself.
pub proof fn lemma_broadcast_self(a: Seq<usize>)
    ensures
        broadcastable(a, a),
        broadcast_dims(a, a) == a,
{
    let n = a.len() as int;
    assert forall|i: int| 0 <= i < broadcast_ndim(a, a) implies #[trigger] dims_compatible(
        dim_from_right(a, i),
        dim_from_right(a, i),
    ) by {}
    assert(broadcast_dims(a, a) =~= a);
}

/// Axis `i` of a shape counted from the right holds the dimension there, or
/// 1 where the shape has fewer axes.
pub proof fn lemma_dim_from_right_value(dims: Seq<usize>, i: int)
    ensures
        dim_from_right(dims, i) == if 0 <= i < dims.len() {
            dims[dims.len() - 1 - i]
        } else {
            1usize
        },
{
}

/// The broadcasting rule: two shapes broadcast exactly when, on every axis
/// counted from the right up to the larger number of axes, their dimensions
/// (1 where an axis is missing) are equal or one of them is 1. The
/// broadcast shape has the larger number of axes and, on each axis, the
/// larger of the two dimensions.
pub proof fn lemma_broadcast_rule(a: Seq<usize>, b: Seq<usize>)
    ensures
        broadcastable(a, b) <==> forall|i: int|
            0 <= i < (if a.len() >= b.len() {
                a.len() as int
            } else {
                b.len() as int
            }) ==> (#[trigger] dim_from_right(a, i) == dim_from_right(b, i) || dim_from_right(a, i)
                == 1 || dim_from_right(b, i) == 1),
        broadcast_dims(a, b).len() == if a.len() >= b.len() {
            a.len()
        } else {
            b.len()
        },
        forall|i: int|
            0 <= i < broadcast_dims(a, b).len() ==> #[trigger] dim_from_right(broadcast_dims(a, b), i)
                == if dim_from_right(a, i) >= dim_from_right(b, i) {
                dim_from_right(a, i)
            } else {
                dim_from_right(b, i)
            },
{
    let n = broadcast_ndim(a, b);
    let r = broadcast_dims(a, b);
    if broadcastable(a, b) {
        assert forall|i: int| 0 <= i < n implies (#[trigger] dim_from_right(a, i) == dim_from_right(
            b,
            i,
        ) || dim_from_right(a, i) == 1 || dim_from_right(b, i) == 1) by {
            assert(dims_compatible(dim_from_right(a, i), dim_from_right(b, i)));
        }
    }
    assert forall|i: int| 0 <= i < r.len() implies #[trigger] dim_from_right(r, i) == if dim_from_right(
        a,
        i,
    ) >= dim_from_right(b, i) {
        dim_from_right(a, i)
    } else {
        dim_from_right(b, i)
    } by {
        assert(r[r.len() - 1 - i] == max_dim(dim_from_right(a, n - 1 - (n - 1 - i)), dim_from_right(b, n - 1 - (n - 1 - i))));
    }
}

} // verus!

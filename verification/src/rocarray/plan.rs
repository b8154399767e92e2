//! Shape planning of device-array operations: the checks an operation makes
//! and the shape of its result, decided before any device work is done.
use vstd::prelude::*;
use crate::error::{Error, Result};
use crate::rocarray::shape_spec::{
    broadcast_dims, broadcastable, dims_fit, lemma_prod_nonneg, lemma_suffix_end,
    lemma_suffix_nonneg, lemma_suffix_start, lemma_suffix_step, prod, suffix_prod,
};
use crate::rocarray::Shape;
use crate::text::{decimal, decimal_string};

verus! {

/// Every product of a prefix of `dims` fits in a `usize`; this is what
/// multiplying the dimensions from the first one on needs.
pub open spec fn prefix_products_fit(dims: Seq<usize>) -> bool {
    forall|k: int| 0 <= k <= dims.len() ==> #[trigger] prod(dims.take(k)) <= usize::MAX
}

/// The dimensions of `dims` other than 1, or a single 1 when there are none.
pub open spec fn squeeze_dims(dims: Seq<usize>) -> Seq<usize> {
    let kept = non_unit_dims(dims);
    if kept.len() == 0 {
        seq![1usize]
    } else {
        kept
    }
}

/// The dimensions of `dims` other than 1, in order.
pub open spec fn non_unit_dims(dims: Seq<usize>) -> Seq<usize>
    decreases dims.len(),
{
    if dims.len() == 0 {
        Seq::empty()
    } else if dims.last() == 1 {
        non_unit_dims(dims.drop_last())
    } else {
        non_unit_dims(dims.drop_last()).push(dims.last())
    }
}

/// The dimensions other than 1 are exactly those of `dims` that are not 1,
/// in their order.
proof fn lemma_non_unit_dims_filter(dims: Seq<usize>)
    ensures
        non_unit_dims(dims) == dims.filter(|x: usize| x != 1),
    decreases dims.len(),
{
    reveal(Seq::filter);
    let f = |x: usize| x != 1;
    if dims.len() > 0 {
        lemma_non_unit_dims_filter(dims.drop_last());
        assert(dims.drop_last().filter(|x: usize| x != 1) == dims.drop_last().filter(f));
        assert(dims.filter(f) == if f(dims.last()) {
            dims.drop_last().filter(f).push(dims.last())
        } else {
            dims.drop_last().filter(f)
        });
    } else {
        assert(dims.filter(f) == dims);
    }
    assert(dims.filter(|x: usize| x != 1) == dims.filter(f));
}

/// Squeezing keeps the dimensions that are not 1, in order, and drops the
/// others; a shape made only of 1s (or of no axes) becomes `[1]`. The
/// squeezed shape holds as many elements as the original.
pub proof fn lemma_squeeze_rule(dims: Seq<usize>)
    ensures
        squeeze_dims(dims) == if dims.filter(|x: usize| x != 1).len() == 0 {
            seq![1usize]
        } else {
            dims.filter(|x: usize| x != 1)
        },
{
    lemma_non_unit_dims_filter(dims);
}

/// Appending a dimension multiplies the product by it.
pub proof fn lemma_prod_push(s: Seq<usize>, a: usize)
    ensures
        prod(s.push(a)) == prod(s) * a,
    decreases s.len(),
{
    let t = s.push(a);
    assert(prod(t) == t[0] as int * prod(t.drop_first()));
    if s.len() == 0 {
        assert(t.drop_first() =~= Seq::<usize>::empty());
        assert(prod(t.drop_first()) == 1);
    } else {
        assert(t.drop_first() =~= s.drop_first().push(a));
        assert(t[0] == s[0]);
        lemma_prod_push(s.drop_first(), a);
        let x = s[0] as int;
        let p = prod(s.drop_first());
        assert(x * (p * a) == (x * p) * a) by (nonlinear_arith);
    }
}

/// Suffix products after appending a dimension.
proof fn lemma_suffix_push(s: Seq<usize>, a: usize, j: int)
    requires
        0 <= j <= s.len(),
    ensures
        suffix_prod(s.push(a), j) == suffix_prod(s, j) * a,
{
    assert(s.push(a).skip(j) =~= s.skip(j).push(a));
    lemma_prod_push(s.skip(j), a);
}

/// Each suffix product of the non-unit dimensions is a suffix product of the
/// dimensions themselves.
proof fn lemma_non_unit_suffixes(s: Seq<usize>, k: int)
    requires
        0 <= k <= non_unit_dims(s).len(),
    ensures
        exists|j: int|
            0 <= j <= s.len() && #[trigger] suffix_prod(s, j) == suffix_prod(non_unit_dims(s), k),
    decreases s.len(),
{
    let t = s.drop_last();
    if s.len() == 0 {
        assert(suffix_prod(s, 0) == suffix_prod(non_unit_dims(s), k));
    } else {
        let a = s.last();
        assert(t.push(a) =~= s);
        let r = non_unit_dims(t);
        if a == 1 {
            lemma_non_unit_suffixes(t, k);
            let j = choose|j: int| 0 <= j <= t.len() && #[trigger] suffix_prod(t, j) == suffix_prod(r, k);
            lemma_suffix_push(t, a, j);
            assert(suffix_prod(s, j) == suffix_prod(non_unit_dims(s), k));
        } else if k == r.len() + 1 {
            lemma_suffix_end(s);
            lemma_suffix_end(non_unit_dims(s));
            assert(suffix_prod(s, s.len() as int) == suffix_prod(non_unit_dims(s), k));
        } else {
            lemma_non_unit_suffixes(t, k);
            let j = choose|j: int| 0 <= j <= t.len() && #[trigger] suffix_prod(t, j) == suffix_prod(r, k);
            lemma_suffix_push(t, a, j);
            lemma_suffix_push(r, a, k);
            assert(suffix_prod(s, j) == suffix_prod(non_unit_dims(s), k));
        }
    }
}

/// Removing dimensions of 1 keeps the product and keeps every suffix
/// product representable.
pub proof fn lemma_squeeze_fits(s: Seq<usize>)
    requires
        dims_fit(s),
    ensures
        dims_fit(squeeze_dims(s)),
        prod(squeeze_dims(s)) == prod(s),
{
    let r = non_unit_dims(s);
    assert forall|k: int| 0 <= k <= r.len() implies #[trigger] suffix_prod(r, k) <= usize::MAX by {
        lemma_non_unit_suffixes(s, k);
    }
    lemma_non_unit_suffixes(s, 0);
    let j = choose|j: int| 0 <= j <= s.len() && #[trigger] suffix_prod(s, j) == suffix_prod(r, 0);
    lemma_non_unit_prod(s);
    lemma_suffix_start(r);
    lemma_suffix_start(s);
    if r.len() == 0 {
        let one = seq![1usize];
        lemma_suffix_end(one);
        lemma_suffix_step(one, 0);
        lemma_suffix_start(one);
        assert(dims_fit(one));
    }
}

/// Removing dimensions of 1 keeps the product.
proof fn lemma_non_unit_prod(s: Seq<usize>)
    ensures
        prod(non_unit_dims(s)) == prod(s),
    decreases s.len(),
{
    if s.len() == 0 {
        assert(prod(non_unit_dims(s)) == 1);
    } else {
        let t = s.drop_last();
        let a = s.last();
        assert(t.push(a) =~= s);
        lemma_non_unit_prod(t);
        lemma_prod_push(t, a);
        if a != 1 {
            lemma_prod_push(non_unit_dims(t), a);
        }
    }
}

/// The product of one more leading dimension.
proof fn lemma_take_step(s: Seq<usize>, k: int)
    requires
        0 <= k < s.len(),
    ensures
        prod(s.take(k + 1)) == prod(s.take(k)) * s[k] as int,
{
    assert(s.take(k + 1) =~= s.take(k).push(s[k]));
    lemma_prod_push(s.take(k), s[k]);
}

/// Product of the dimensions, multiplied from the first one on.
fn product_of(dims: &Vec<usize>) -> (r: usize)
    requires
        prefix_products_fit(dims@),
    ensures
        r == prod(dims@),
{
    let mut acc: usize = 1;
    let mut i: usize = 0;
    assert(dims@.take(0) =~= Seq::<usize>::empty());
    while i < dims.len()
        invariant
            i <= dims@.len(),
            prefix_products_fit(dims@),
            acc as int == prod(dims@.take(i as int)),
        decreases dims@.len() - i,
    {
        proof {
            lemma_take_step(dims@, i as int);
            assert(prod(dims@.take(i + 1)) <= usize::MAX);
        }
        acc = acc * dims[i];
        i += 1;
    }
    assert(dims@.take(dims@.len() as int) =~= dims@);
    acc
}

/// A custom error with the given message.
fn custom(msg: &str) -> (r: Error)
    ensures
        r matches Error::Custom(m) && m@ == msg@,
{
    Error::Custom(String::from_str(msg))
}

/// The shape of a reshape to `new_dims`: allowed when the number of elements
/// is unchanged.
pub fn reshape_plan(shape: &Shape, new_dims: Vec<usize>) -> (r: Result<Shape>)
    requires
        prefix_products_fit(new_dims@),
        prod(new_dims@) == prod(shape@) ==> dims_fit(new_dims@),
    ensures
        r is Ok <==> prod(new_dims@) == prod(shape@),
        r matches Ok(s) ==> s@ == new_dims@,
        r matches Err(e) ==> e matches Error::Custom(m) && m@
            == "New shape must have the same total size"@,
{
    let new_size = product_of(&new_dims);
    if new_size != shape.size() {
        return Err(custom("New shape must have the same total size"));
    }
    Ok(Shape::new(new_dims))
}

/// The shape with its dimensions of 1 removed (a single 1 if nothing is left).
pub fn squeeze_plan(shape: &Shape) -> (r: Shape)
    ensures
        r@ == squeeze_dims(shape@),
{
    let dims = shape.dims();
    let ghost s = dims@;
    let mut kept: Vec<usize> = Vec::new();
    let mut i: usize = 0;
    assert(s.take(0) =~= Seq::<usize>::empty());
    while i < dims.len()
        invariant
            s == dims@,
            i <= s.len(),
            kept@ == non_unit_dims(s.take(i as int)),
        decreases s.len() - i,
    {
        assert(s.take(i + 1).drop_last() =~= s.take(i as int));
        if dims[i] != 1 {
            kept.push(dims[i]);
        }
        i += 1;
    }
    assert(s.take(s.len() as int) =~= s);
    proof {
        lemma_squeeze_fits(s);
    }
    if kept.len() == 0 {
        let one = vec![1];
        assert(one@ =~= squeeze_dims(s));
        Shape::new(one)
    } else {
        Shape::new(kept)
    }
}

/// Shrinking the first dimension keeps every suffix product representable.
proof fn lemma_shrunk_first_fits(dims: Seq<usize>, first: usize)
    requires
        dims_fit(dims),
        dims.len() > 0,
        first <= dims[0],
    ensures
        dims_fit(dims.update(0, first)),
{
    let d = dims.update(0, first);
    assert forall|k: int| 0 <= k <= d.len() implies #[trigger] suffix_prod(d, k) <= usize::MAX by {
        if k >= 1 {
            assert(d.skip(k) =~= dims.skip(k));
            assert(suffix_prod(dims, k) <= usize::MAX);
        } else {
            assert(d.skip(1) =~= dims.skip(1));
            lemma_suffix_step(d, 0);
            lemma_suffix_step(dims, 0);
            lemma_suffix_nonneg(dims, 1);
            let p = suffix_prod(dims, 1);
            assert(suffix_prod(dims, 0) <= usize::MAX);
            assert(first as int * p <= dims[0] as int * p) by (nonlinear_arith)
                requires first <= dims[0], p >= 0;
        }
    }
}

/// The shape of the rows `start..end` along the first axis.
pub fn slice_plan(shape: &Shape, start: usize, end: usize) -> (r: Result<Shape>)
    ensures
        r is Ok <==> shape@.len() > 0 && start < end <= shape@[0],
        r matches Ok(s) ==> s@ == shape@.update(0, (end - start) as usize),
        r matches Err(e) ==> e matches Error::Custom(m) && m@ == (if shape@.len() == 0 {
            "Cannot slice 0-dimensional array"@
        } else {
            "Invalid slice indices"@
        }),
{
    if shape.ndim() == 0 {
        return Err(custom("Cannot slice 0-dimensional array"));
    }
    let dims = shape.dims();
    let first_dim = dims[0];
    if start >= first_dim || end > first_dim || start >= end {
        return Err(custom("Invalid slice indices"));
    }
    let mut new_dims = vstd::slice::slice_to_vec(dims);
    new_dims.set(0, end - start);
    proof {
        lemma_shrunk_first_fits(dims@, (end - start) as usize);
    }
    Ok(Shape::new(new_dims))
}

/// The shape of one row of a matrix: a vector as long as a row.
pub fn row_plan(shape: &Shape, index: usize) -> (r: Result<Shape>)
    requires
        shape@.len() == 2 ==> index < usize::MAX,
    ensures
        r is Ok <==> shape@.len() == 2 && index < shape@[0],
        r matches Ok(s) ==> s@ == seq![shape@[1]],
        r matches Err(e) ==> e matches Error::Custom(m) && m@ == (if shape@.len() != 2 {
            "Row access requires 2D array"@
        } else {
            "Invalid slice indices"@
        }),
{
    if shape.ndim() != 2 {
        return Err(custom("Row access requires 2D array"));
    }
    let row = slice_plan(shape, index, index + 1);
    match row {
        Ok(row_shape) => {
            let cols = shape.dims()[1];
            let new_dims = vec![cols];
            proof {
                let d = row_shape@;
                lemma_suffix_step(d, 0);
                lemma_suffix_step(d, 1);
                lemma_suffix_end(d);
                lemma_suffix_start(d);
                assert(d.skip(2) =~= Seq::<usize>::empty());
                lemma_suffix_step(new_dims@, 0);
                lemma_suffix_end(new_dims@);
                lemma_suffix_start(new_dims@);
                assert(prefix_products_fit(new_dims@)) by {
                    assert(new_dims@.take(0) =~= Seq::<usize>::empty());
                    assert(new_dims@.take(1) =~= new_dims@);
                }
                assert(dims_fit(new_dims@));
            }
            reshape_plan(&row_shape, new_dims)
        },
        Err(e) => Err(e),
    }
}

/// The shape of one column of a matrix: a vector as long as a column.
pub fn col_plan(shape: &Shape) -> (r: Result<Shape>)
    ensures
        r is Ok <==> shape@.len() == 2,
        r matches Ok(s) ==> s@ == seq![shape@[0]],
        r matches Err(e) ==> e matches Error::Custom(m) && m@ == "Column access requires 2D array"@,
{
    if shape.ndim() != 2 {
        return Err(custom("Column access requires 2D array"));
    }
    Ok(Shape::new_1d(shape.dims()[0]))
}

/// The shape of the product of an `m x k` and a `k x n` matrix.
pub fn matmul_plan(a: &Shape, b: &Shape) -> (r: Result<Shape>)
    requires
        a@.len() == 2 && b@.len() == 2 && a@[1] == b@[0] ==> a@[0] * b@[1] <= usize::MAX,
    ensures
        r is Ok <==> a@.len() == 2 && b@.len() == 2 && a@[1] == b@[0],
        r matches Ok(s) ==> s@ == seq![a@[0], b@[1]],
        r matches Err(e) ==> e matches Error::Custom(m) && m@ == (if a@.len() != 2 || b@.len()
            != 2 {
            "Matrix multiplication requires 2D arrays"@
        } else {
            "Inner dimensions must match for matrix multiplication"@
        }),
{
    if a.ndim() != 2 || b.ndim() != 2 {
        return Err(custom("Matrix multiplication requires 2D arrays"));
    }
    let m = a.dims()[0];
    let k = a.dims()[1];
    let k2 = b.dims()[0];
    let n = b.dims()[1];
    if k != k2 {
        return Err(custom("Inner dimensions must match for matrix multiplication"));
    }
    Ok(Shape::new_2d(m, n))
}

/// The dimensions left after summing along `axis` (a single 1 if none).
pub open spec fn reduced_dims(dims: Seq<usize>, axis: int) -> Seq<usize> {
    if dims.remove(axis).len() == 0 {
        seq![1usize]
    } else {
        dims.remove(axis)
    }
}

/// Summing along an axis removes exactly that axis: the axes before it keep
/// their place and the axes after it move one place left. Only a shape of
/// a single axis, which would be left with none, becomes `[1]`.
pub proof fn lemma_sum_axis_dims(dims: Seq<usize>, axis: int)
    requires
        0 <= axis < dims.len(),
    ensures
        dims.len() == 1 ==> reduced_dims(dims, axis) == seq![1usize],
        dims.len() >= 2 ==> reduced_dims(dims, axis).len() == dims.len() - 1,
        dims.len() >= 2 ==> forall|j: int|
            0 <= j < axis ==> #[trigger] reduced_dims(dims, axis)[j] == dims[j],
        dims.len() >= 2 ==> forall|j: int|
            axis <= j < dims.len() - 1 ==> #[trigger] reduced_dims(dims, axis)[j] == dims[j + 1],
{
}

/// The shape of a sum along `axis`.
pub fn sum_axis_plan(shape: &Shape, axis: usize) -> (r: Result<Shape>)
    requires
        axis < shape@.len() ==> dims_fit(shape@.remove(axis as int)),
    ensures
        r is Ok <==> axis < shape@.len(),
        r matches Ok(s) ==> s@ == reduced_dims(shape@, axis as int),
        r matches Err(e) ==> e matches Error::Custom(m) && m@ == "Axis out of bounds"@,
{
    if axis >= shape.ndim() {
        return Err(custom("Axis out of bounds"));
    }
    let mut new_dims = vstd::slice::slice_to_vec(shape.dims());
    new_dims.remove(axis);
    if new_dims.len() == 0 {
        let one = vec![1];
        proof {
            lemma_suffix_step(one@, 0);
            lemma_suffix_end(one@);
        }
        assert(one@ =~= reduced_dims(shape@, axis as int));
        Ok(Shape::new(one))
    } else {
        Ok(Shape::new(new_dims))
    }
}

/// The shape of an element-wise operation on arrays of the given shapes.
pub fn broadcast_plan(a: &Shape, b: &Shape) -> (r: Result<Shape>)
    requires
        broadcastable(a@, b@) ==> dims_fit(broadcast_dims(a@, b@)),
    ensures
        r is Ok <==> broadcastable(a@, b@),
        r matches Ok(s) ==> s@ == broadcast_dims(a@, b@),
        r matches Err(e) ==> e matches Error::Custom(m) && m@
            == "Shapes are not compatible for broadcasting"@,
{
    match a.broadcast_with(b) {
        Some(s) => Ok(s),
        None => Err(custom("Shapes are not compatible for broadcasting")),
    }
}

/// Message of a host vector that does not fill a shape.
pub open spec fn length_mismatch_text(len: nat, size: nat) -> Seq<char> {
    "Vector length "@ + decimal(len) + " doesn't match shape size "@ + decimal(size)
}

/// Host data of `len` elements fills `shape` exactly.
pub fn check_vec_len(len: usize, shape: &Shape) -> (r: Result<()>)
    ensures
        r is Ok <==> len == prod(shape@),
        r matches Err(e) ==> e matches Error::Custom(m) && m@ == length_mismatch_text(
            len as nat,
            prod(shape@) as nat,
        ),
{
    let size = shape.size();
    if len != size {
        let l = decimal_string(len as u64);
        let z = decimal_string(size as u64);
        let msg = String::from_str("Vector length ");
        let msg = msg.concat(l.as_str());
        let msg = msg.concat(" doesn't match shape size ");
        let msg = msg.concat(z.as_str());
        proof {
            lemma_prod_nonneg(shape@);
        }
        return Err(Error::Custom(msg));
    }
    Ok(())
}

/// A source of `source_len` elements fits a destination of `capacity`.
pub fn check_copy_capacity(source_len: usize, capacity: usize) -> (r: Result<()>)
    ensures
        r is Ok <==> source_len <= capacity,
        r matches Err(e) ==> e matches Error::Custom(m) && m@
            == "Source array is larger than destination capacity"@,
{
    if source_len > capacity {
        return Err(custom("Source array is larger than destination capacity"));
    }
    Ok(())
}

/// Whether the row-major strides of `dims` can be computed without
/// overflow, that is whether `Shape::new` accepts them.
pub fn strides_fit(dims: &[usize]) -> (r: bool)
    ensures
        r == dims_fit(dims@),
{
    let n = dims.len();
    let mut stride: usize = 1;
    let mut i = n;
    proof {
        lemma_suffix_end(dims@);
    }
    while i > 0
        invariant
            n == dims@.len(),
            i <= n,
            stride as int == suffix_prod(dims@, i as int),
            forall|k: int| i <= k <= n ==> #[trigger] suffix_prod(dims@, k) <= usize::MAX,
        decreases i,
    {
        i -= 1;
        proof {
            lemma_suffix_step(dims@, i as int);
        }
        match stride.checked_mul(dims[i]) {
            Some(next) => {
                proof {
                    let d = dims@[i as int] as int;
                    assert(stride as int * d == d * stride as int) by (nonlinear_arith);
                }
                stride = next;
            },
            None => {
                proof {
                    let d = dims@[i as int] as int;
                    assert(stride as int * d == d * stride as int) by (nonlinear_arith);
                    assert(suffix_prod(dims@, i as int) > usize::MAX);
                }
                return false;
            },
        }
    }
    true
}

/// Whether the dimensions can be multiplied from the first one on without
/// overflow.
pub fn prefix_products_fit_exec(dims: &[usize]) -> (r: bool)
    ensures
        r == prefix_products_fit(dims@),
{
    let mut acc: usize = 1;
    let mut i: usize = 0;
    assert(dims@.take(0) =~= Seq::<usize>::empty());
    while i < dims.len()
        invariant
            i <= dims@.len(),
            acc as int == prod(dims@.take(i as int)),
            forall|k: int| 0 <= k <= i ==> #[trigger] prod(dims@.take(k)) <= usize::MAX,
        decreases dims@.len() - i,
    {
        proof {
            lemma_take_step(dims@, i as int);
        }
        match acc.checked_mul(dims[i]) {
            Some(next) => {
                acc = next;
            },
            None => {
                assert(prod(dims@.take(i + 1)) > usize::MAX);
                return false;
            },
        }
        i += 1;
    }
    true
}

} // verus!

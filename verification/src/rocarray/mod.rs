pub mod display;
pub mod kernels;
pub mod plan;
pub mod random;
pub mod sorting;
pub mod shape_spec;

use vstd::prelude::*;
use crate::rocarray::shape_spec::{
    broadcast_dims, broadcast_ndim, broadcastable, dim_from_right, dims_compatible, dims_fit,
    indices_in_bounds, lemma_strides_row_major, lemma_suffix_end, lemma_suffix_nonneg,
    lemma_suffix_start, lemma_suffix_step, lemma_trailing_suffix_pos, lemma_weighted_prefix_bound,
    prod, ravel_spec, strides_of, suffix_prod, trailing_dims_nonzero, unravel_rem, unravel_spec,
    weighted_sum,
};

verus! {

/// Shape information for multidimensional arrays
#[derive(Debug, PartialEq, Eq)]
pub struct Shape {
    dims: Vec<usize>,
    strides: Vec<usize>,
}

impl View for Shape {
    type V = Seq<usize>;

    /// The dimensions of the shape.
    closed spec fn view(&self) -> Seq<usize> {
        self.dims@
    }
}

impl Shape {
    /// The strides are the row-major strides of the dimensions, all of
    /// which could be computed without overflow.
    #[verifier::type_invariant]
    spec fn well_formed(self) -> bool {
        &&& dims_fit(self.dims@)
        &&& self.strides@ == strides_of(self.dims@)
    }

    /// Create a new shape from dimensions
    pub fn new(dims: Vec<usize>) -> (r: Self)
        requires
            dims_fit(dims@),
        ensures
            r@ == dims@,
    {
        let strides = Self::compute_strides(&dims);
        Self { dims, strides }
    }

    /// Create a 1D shape
    pub fn new_1d(len: usize) -> (r: Self)
        ensures
            r@ == seq![len],
    {
        let dims = vec![len];
        proof {
            lemma_suffix_end(dims@);
            lemma_suffix_step(dims@, 0);
            assert(dims_fit(dims@));
        }
        Self::new(dims)
    }

    /// Create a 2D shape
    pub fn new_2d(rows: usize, cols: usize) -> (r: Self)
        requires
            rows * cols <= usize::MAX,
        ensures
            r@ == seq![rows, cols],
    {
        let dims = vec![rows, cols];
        proof {
            lemma_suffix_end(dims@);
            lemma_suffix_step(dims@, 1);
            lemma_suffix_step(dims@, 0);
            assert(dims_fit(dims@));
        }
        Self::new(dims)
    }

    /// Create a 3D shape
    pub fn new_3d(depth: usize, rows: usize, cols: usize) -> (r: Self)
        requires
            rows * cols <= usize::MAX,
            depth * (rows * cols) <= usize::MAX,
        ensures
            r@ == seq![depth, rows, cols],
    {
        let dims = vec![depth, rows, cols];
        proof {
            lemma_suffix_end(dims@);
            lemma_suffix_step(dims@, 2);
            lemma_suffix_step(dims@, 1);
            lemma_suffix_step(dims@, 0);
            assert(dims_fit(dims@));
        }
        Self::new(dims)
    }

    /// Get dimensions
    pub fn dims(&self) -> (r: &[usize])
        ensures
            r@ == self@,
            dims_fit(self@),
    {
        proof {
            use_type_invariant(self);
        }
        self.dims.as_slice()
    }

    /// Get strides
    pub fn strides(&self) -> (r: &[usize])
        ensures
            r@ == strides_of(self@),
    {
        proof {
            use_type_invariant(self);
        }
        self.strides.as_slice()
    }

    /// Get number of dimensions
    pub fn ndim(&self) -> (r: usize)
        ensures
            r == self@.len(),
    {
        self.dims.len()
    }

    /// Get total number of elements
    pub fn size(&self) -> (r: usize)
        ensures
            r == prod(self@),
    {
        proof {
            use_type_invariant(self);
            lemma_suffix_start(self.dims@);
        }
        if self.dims.len() == 0 {
            proof {
                lemma_suffix_end(self.dims@);
            }
            1
        } else {
            proof {
                lemma_strides_row_major(self.dims@, 0);
                lemma_suffix_step(self.dims@, 0);
                assert(suffix_prod(self.dims@, 0) <= usize::MAX);
            }
            self.dims[0] * self.strides[0]
        }
    }

    /// Dimension `i` counted from the last axis, 1 past the first axis.
    fn dim_from_right(&self, i: usize) -> (r: usize)
        ensures
            r == dim_from_right(self@, i as int),
    {
        let n = self.dims.len();
        if i < n {
            self.dims[n - 1 - i]
        } else {
            1
        }
    }

    /// Check if shapes are compatible for broadcasting
    pub fn can_broadcast_with(&self, other: &Shape) -> (r: bool)
        ensures
            r == broadcastable(self@, other@),
    {
        let max_ndim = if self.ndim() >= other.ndim() {
            self.ndim()
        } else {
            other.ndim()
        };
        let mut i: usize = 0;
        while i < max_ndim
            invariant
                max_ndim == broadcast_ndim(self@, other@),
                i <= max_ndim,
                forall|j: int|
                    0 <= j < i ==> #[trigger] dims_compatible(
                        dim_from_right(self@, j),
                        dim_from_right(other@, j),
                    ),
            decreases max_ndim - i,
        {
            let dim1 = self.dim_from_right(i);
            let dim2 = other.dim_from_right(i);
            if dim1 != dim2 && dim1 != 1 && dim2 != 1 {
                assert(!dims_compatible(dim_from_right(self@, i as int), dim_from_right(other@, i as int)));
                return false;
            }
            i += 1;
        }
        true
    }

    /// Dimensions of the broadcast of two shapes, axis by axis the larger.
    fn broadcast_dims_vec(&self, other: &Shape) -> (r: Vec<usize>)
        ensures
            r@ == broadcast_dims(self@, other@),
    {
        let max_ndim = if self.ndim() >= other.ndim() {
            self.ndim()
        } else {
            other.ndim()
        };
        let mut result_dims: Vec<usize> = vec![1; max_ndim];
        let ghost target = broadcast_dims(self@, other@);
        let mut i: usize = 0;
        while i < max_ndim
            invariant
                max_ndim == broadcast_ndim(self@, other@),
                target == broadcast_dims(self@, other@),
                i <= max_ndim,
                result_dims@.len() == max_ndim,
                forall|k: int| max_ndim - i <= k < max_ndim ==> #[trigger] result_dims@[k] == target[k],
            decreases max_ndim - i,
        {
            let dim1 = self.dim_from_right(i);
            let dim2 = other.dim_from_right(i);
            let d = if dim1 >= dim2 { dim1 } else { dim2 };
            result_dims.set(max_ndim - 1 - i, d);
            i += 1;
        }
        assert(result_dims@ =~= target);
        result_dims
    }

    /// Whether `broadcast_with` can build the broadcast shape: the shapes
    /// do not broadcast, or the strides of the broadcast fit in a `usize`.
    pub fn broadcast_fits(&self, other: &Shape) -> (r: bool)
        ensures
            r == (broadcastable(self@, other@) ==> dims_fit(broadcast_dims(self@, other@))),
    {
        if !self.can_broadcast_with(other) {
            return true;
        }
        let dims = self.broadcast_dims_vec(other);
        crate::rocarray::plan::strides_fit(dims.as_slice())
    }

    /// Broadcast two shapes together
    pub fn broadcast_with(&self, other: &Shape) -> (r: Option<Shape>)
        requires
            broadcastable(self@, other@) ==> dims_fit(broadcast_dims(self@, other@)),
        ensures
            r is Some <==> broadcastable(self@, other@),
            r matches Some(s) ==> s@ == broadcast_dims(self@, other@),
    {
        if !self.can_broadcast_with(other) {
            return None;
        }
        let result_dims = self.broadcast_dims_vec(other);
        Some(Shape::new(result_dims))
    }

    /// Convert flat index to multidimensional indices
    pub fn unravel_index(&self, index: usize) -> (r: Vec<usize>)
        requires
            trailing_dims_nonzero(self@),
        ensures
            r@ == unravel_spec(strides_of(self@), index as int),
    {
        proof {
            use_type_invariant(self);
        }
        let n = self.strides.len();
        let mut indices: Vec<usize> = Vec::with_capacity(n);
        let mut remaining = index;
        let ghost st = self.strides@;
        let mut i: usize = 0;
        while i < n
            invariant
                n == st.len(),
                st == self.strides@,
                st == strides_of(self.dims@),
                dims_fit(self.dims@),
                trailing_dims_nonzero(self.dims@),
                i <= n,
                remaining as int == unravel_rem(st, index as int, i as int),
                indices@ =~= unravel_spec(st, index as int).take(i as int),
            decreases n - i,
        {
            let stride = self.strides[i];
            proof {
                lemma_strides_row_major(self.dims@, i as int);
                lemma_trailing_suffix_pos(self.dims@, i + 1);
            }
            indices.push(remaining / stride);
            remaining = remaining % stride;
            i += 1;
        }
        indices
    }

    /// Convert multidimensional indices to flat index
    pub fn ravel_index(&self, indices: &[usize]) -> (r: Option<usize>)
        ensures
            r == ravel_spec(self@, indices@),
    {
        proof {
            use_type_invariant(self);
        }
        if indices.len() != self.ndim() {
            return None;
        }
        let n = indices.len();
        let ghost st = self.strides@;
        let mut flat_index: usize = 0;
        let mut i: usize = 0;
        while i < n
            invariant
                n == indices@.len(),
                n == self.dims@.len(),
                st == self.strides@,
                st == strides_of(self.dims@),
                dims_fit(self.dims@),
                i <= n,
                forall|j: int| 0 <= j < i ==> #[trigger] indices@[j] < self.dims@[j],
                flat_index as int == weighted_sum(indices@, st, i as int),
            decreases n - i,
        {
            let idx = indices[i];
            if idx >= self.dims[i] {
                assert(!indices_in_bounds(self@, indices@));
                return None;
            }
            proof {
                lemma_weighted_prefix_bound(self.dims@, indices@, i + 1);
                lemma_suffix_nonneg(self.dims@, i + 1);
                assert(suffix_prod(self.dims@, 0) <= usize::MAX);
                lemma_strides_row_major(self.dims@, i as int);
                assert(weighted_sum(indices@, st, i + 1) == flat_index + idx * st[i as int]);
                lemma_weighted_prefix_bound(self.dims@, indices@, i as int);
            }
            flat_index = flat_index + idx * self.strides[i];
            i += 1;
        }
        Some(flat_index)
    }

    /// Compute strides for given dimensions (row-major order)
    fn compute_strides(dims: &Vec<usize>) -> (r: Vec<usize>)
        requires
            dims_fit(dims@),
        ensures
            r@ == strides_of(dims@),
    {
        let n = dims.len();
        let mut strides: Vec<usize> = vec![0; n];
        let mut stride: usize = 1;
        let mut i = n;
        proof {
            lemma_suffix_end(dims@);
        }
        while i > 0
            invariant
                n == dims@.len(),
                dims_fit(dims@),
                i <= n,
                strides@.len() == n,
                stride as int == suffix_prod(dims@, i as int),
                forall|j: int| i <= j < n ==> #[trigger] strides@[j] as int == suffix_prod(dims@, j + 1),
            decreases i,
        {
            i -= 1;
            strides.set(i, stride);
            proof {
                lemma_suffix_step(dims@, i as int);
                assert(suffix_prod(dims@, i as int) <= usize::MAX);
                let d = dims@[i as int] as int;
                assert(stride as int * d == d * stride as int) by (nonlinear_arith);
            }
            stride = stride * dims[i];
        }
        proof {
            assert forall|j: int| 0 <= j < n implies #[trigger] strides@[j] == strides_of(dims@)[j] by {
                assert(suffix_prod(dims@, j + 1) <= usize::MAX);
                lemma_suffix_nonneg(dims@, j + 1);
            }
        }
        assert(strides@ =~= strides_of(dims@));
        strides
    }
}

impl Clone for Shape {
    fn clone(&self) -> (r: Self)
        ensures
            r@ == self@,
    {
        proof {
            use_type_invariant(self);
        }
        let dims = self.dims.clone();
        let strides = self.strides.clone();
        assert(dims@ =~= self.dims@);
        assert(strides@ =~= self.strides@);
        Shape { dims, strides }
    }
}

} // verus!

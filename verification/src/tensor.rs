//! The tensor model the postprocessing strategies consume.
//!
//! A tensor is a multi-dimensional array of fixed-point samples (see
//! [`crate::fixed`]), stored row-major.  The layouts the strategies read are
//! `[batch]` or `[batch, 1]` for scalar scores and `[batch, H, W]` or
//! `[batch, 1, H, W]` for spatial maps; the presence of the singleton channel
//! axis is resolved by rank inspection, not by configuration.
use vstd::prelude::*;

use crate::Error;

verus! {

/// Product of a dimension list; the flat length of a tensor's data.
pub open spec fn dims_product(dims: Seq<usize>) -> int
    decreases dims.len(),
{
    if dims.len() == 0 {
        1
    } else {
        dims[0] * dims_product(dims.drop_first())
    }
}

/// A multi-dimensional array of fixed-point samples, stored row-major.
pub struct Tensor {
    dims: Vec<usize>,
    data: Vec<i64>,
}

impl Tensor {
    /// The dimension list.
    pub closed spec fn spec_dims(self) -> Seq<usize> {
        self.dims@
    }

    /// The flat row-major data.
    pub closed spec fn spec_data(self) -> Seq<i64> {
        self.data@
    }

    /// Well-formedness: a rank between 1 and 4, and a data length that is
    /// exactly the product of the dimensions.
    #[verifier::type_invariant]
    pub open spec fn wf(self) -> bool {
        &&& 1 <= self.spec_dims().len() <= 4
        &&& dims_product(self.spec_dims()) == self.spec_data().len()
    }

    /// Build a tensor, checking that the data length matches the dimensions.
    /// Returns `ShapeMismatch` when the rank is outside 1..=4 or the product
    /// of the dimensions is not the data length.
    pub fn new(dims: Vec<usize>, data: Vec<i64>) -> (r: Result<Tensor, Error>)
        ensures
            match r {
                Ok(t) => {
                    &&& t.spec_dims() == dims@
                    &&& t.spec_data() == data@
                    &&& 1 <= dims@.len() <= 4
                    &&& dims_product(dims@) == data@.len()
                },
                Err(e) => {
                    &&& e == Error::ShapeMismatch
                    &&& !(1 <= dims@.len() <= 4 && dims_product(dims@) == data@.len())
                },
            },
    {
        if dims.len() < 1 || dims.len() > 4 {
            return Err(Error::ShapeMismatch);
        }
        let n: usize = data.len();
        let mut i: usize = 0;
        while i < dims.len()
            invariant
                0 <= i <= dims@.len(),
                1 <= dims@.len() <= 4,
                n == data@.len(),
                forall|j: int| 0 <= j < i ==> dims@[j] != 0,
            decreases dims@.len() - i,
        {
            if dims[i] == 0 {
                proof {
                    lemma_dims_product_with_zero(dims@, i as int);
                }
                if n == 0 {
                    return Ok(Tensor { dims, data });
                } else {
                    return Err(Error::ShapeMismatch);
                }
            }
            i += 1;
        }
        let mut prod: usize = 1;
        let mut k: usize = 0;
        while k < dims.len()
            invariant
                0 <= k <= dims@.len(),
                1 <= dims@.len() <= 4,
                n == data@.len(),
                dims_product(dims@.take(k as int)) == prod,
                forall|j: int| 0 <= j < dims@.len() ==> dims@[j] != 0,
            decreases dims@.len() - k,
        {
            proof {
                assert(dims@.take(k + 1).drop_last() =~= dims@.take(k as int));
                lemma_dims_product_snoc(dims@.take(k + 1));
            }
            let d = dims[k];
            match prod.checked_mul(d) {
                Some(p) => {
                    prod = p;
                },
                None => {
                    proof {
                        lemma_dims_product_grows(dims@, k + 1);
                    }
                    return Err(Error::ShapeMismatch);
                },
            }
            k += 1;
        }
        proof {
            assert(dims@.take(dims@.len() as int) =~= dims@);
        }
        if prod != n {
            return Err(Error::ShapeMismatch);
        }
        Ok(Tensor { dims, data })
    }

    /// The rank (number of dimensions).
    pub fn rank(&self) -> (r: usize)
        ensures
            r == self.spec_dims().len(),
    {
        proof {
            use_type_invariant(self);
        }
        self.dims.len()
    }

    /// The size of axis `i`.
    pub fn dim(&self, i: usize) -> (r: usize)
        requires
            i < self.spec_dims().len(),
        ensures
            r == self.spec_dims()[i as int],
    {
        self.dims[i]
    }

    /// The flat data length.
    pub fn len(&self) -> (r: usize)
        ensures
            r == self.spec_data().len(),
    {
        self.data.len()
    }

    /// Read the sample at flat index `idx`.
    pub fn get(&self, idx: usize) -> (r: i64)
        requires
            idx < self.spec_data().len(),
        ensures
            r == self.spec_data()[idx as int],
    {
        self.data[idx]
    }
}

/// Peeling the last dimension off a product.
pub proof fn lemma_dims_product_snoc(dims: Seq<usize>)
    requires
        dims.len() > 0,
    ensures
        dims_product(dims) == dims_product(dims.drop_last()) * dims.last(),
    decreases dims.len(),
{
    if dims.len() == 1 {
        assert(dims.drop_first() =~= Seq::<usize>::empty());
        assert(dims.drop_last() =~= Seq::<usize>::empty());
        assert(dims_product(Seq::<usize>::empty()) == 1);
        assert(dims_product(dims) == dims[0] * 1);
        assert(dims.last() == dims[0]);
    } else {
        lemma_dims_product_snoc(dims.drop_first());
        assert(dims.drop_first().drop_last() =~= dims.drop_last().drop_first());
        assert(dims.drop_first().last() == dims.last());
        assert(dims.drop_last()[0] == dims[0]);
        assert(dims.drop_last().len() > 0);
        let d0 = dims[0] as int;
        let p = dims_product(dims.drop_last().drop_first());
        let dl = dims.last() as int;
        assert(dims_product(dims) == d0 * dims_product(dims.drop_first()));
        assert(dims_product(dims.drop_first()) == p * dl);
        assert(dims_product(dims.drop_last()) == d0 * p);
        assert(d0 * (p * dl) == (d0 * p) * dl) by (nonlinear_arith);
    }
}

/// The product is never negative.
pub proof fn lemma_dims_product_nonneg(dims: Seq<usize>)
    ensures
        dims_product(dims) >= 0,
    decreases dims.len(),
{
    if dims.len() > 0 {
        lemma_dims_product_nonneg(dims.drop_first());
        let d0 = dims[0] as int;
        let p = dims_product(dims.drop_first());
        assert(d0 * p >= 0) by (nonlinear_arith)
            requires d0 >= 0, p >= 0;
    }
}

/// A zero dimension makes the whole product zero.
proof fn lemma_dims_product_with_zero(dims: Seq<usize>, i: int)
    requires
        0 <= i < dims.len(),
        dims[i] == 0,
    ensures
        dims_product(dims) == 0,
    decreases dims.len(),
{
    if i == 0 {
        let p = dims_product(dims.drop_first());
        assert(dims_product(dims) == 0 * p);
        assert(0 * p == 0) by (nonlinear_arith);
    } else {
        lemma_dims_product_with_zero(dims.drop_first(), i - 1);
        let d0 = dims[0] as int;
        assert(d0 * 0 == 0) by (nonlinear_arith);
    }
}

/// With every dimension nonzero, extending a prefix never shrinks its
/// product; once a prefix is above `usize::MAX`, so is the whole product.
proof fn lemma_dims_product_grows(dims: Seq<usize>, i: int)
    requires
        0 <= i <= dims.len(),
        forall|j: int| 0 <= j < dims.len() ==> dims[j] != 0,
    ensures
        dims_product(dims) >= dims_product(dims.take(i)),
    decreases dims.len() - i,
{
    if i == dims.len() {
        assert(dims.take(i) =~= dims);
    } else {
        lemma_dims_product_snoc(dims.take(i + 1));
        assert(dims.take(i + 1).drop_last() =~= dims.take(i));
        let p = dims_product(dims.take(i));
        let d = dims[i] as int;
        lemma_dims_product_nonneg(dims.take(i));
        assert(p * d >= p) by (nonlinear_arith)
            requires p >= 0, d >= 1;
        lemma_dims_product_grows(dims, i + 1);
    }
}

} // verus!

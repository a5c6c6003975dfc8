//! Density evaluation at single and batched query points, via the
//! whitened-coordinate (Mahalanobis) formulation: for every data point
//! the coordinate difference is transformed by the inverse Cholesky
//! factor, and the squared norm of the result feeds the Gaussian kernel.

use vstd::prelude::*;

use crate::bandwidth::Bandwidth;
use crate::linalg::mat_of;
use crate::scalar::Scalar;
use crate::{GaussianKDE, KDEView};

verus! {

/// One entry of the whitened residual: the sum over `t < k` of
/// `inv_row[t] * (xi[t] - x[t])`, in ascending order.
pub open spec fn zrow_k<F: Scalar>(inv_row: Seq<F>, xi: Seq<F>, x: Seq<F>, k: nat) -> F
    decreases k,
{
    if k == 0 {
        F::spec_zero()
    } else {
        zrow_k(inv_row, xi, x, (k - 1) as nat).spec_plus(
            inv_row[k - 1].spec_times(xi[k - 1].spec_minus(x[k - 1])),
        )
    }
}

/// The squared norm of the first `k` entries of the whitened residual
/// of `xi - x`: the sum of the squares of the row sums of the
/// lower-triangular matrix `inv` applied to the difference.
pub open spec fn arg_k<F: Scalar>(inv: Seq<Seq<F>>, xi: Seq<F>, x: Seq<F>, k: nat) -> F
    decreases k,
{
    if k == 0 {
        F::spec_zero()
    } else {
        let z = zrow_k(inv[k - 1], xi, x, k);
        arg_k(inv, xi, x, (k - 1) as nat).spec_plus(z.spec_times(z))
    }
}

/// The kernel contribution of data point `r` to the density at `x`:
/// `exp(-1/2 * |L^{-1}(x_r - x)|^2)`, multiplied by the point's weight
/// when weights are present.
pub open spec fn spec_point_term<F: Scalar>(v: KDEView<F>, x: Seq<F>, r: int) -> F {
    let e = F::spec_from_usize(2).spec_recip().spec_negate().spec_times(
        arg_k(v.inv_cholesky, v.data[r], x, v.dim() as nat),
    ).spec_exp();
    match v.weights {
        Option::Some(w) => w[r].spec_times(e),
        Option::None => e,
    }
}

/// The kernel sum over the first `k` data points, in ascending order.
pub open spec fn eval_sum_k<F: Scalar>(v: KDEView<F>, x: Seq<F>, k: nat) -> F
    decreases k,
{
    if k == 0 {
        F::spec_zero()
    } else {
        eval_sum_k(v, x, (k - 1) as nat).spec_plus(spec_point_term(v, x, k - 1))
    }
}

/// The estimated density at `x`: the kernel sum over all data points,
/// multiplied by the model's normalization constant.
pub open spec fn spec_eval<F: Scalar>(v: KDEView<F>, x: Seq<F>) -> F {
    eval_sum_k(v, x, v.n() as nat).spec_times(v.normalization)
}

#[verifier::loop_isolation(false)]
fn point_arg<F: Scalar>(inv: &Vec<Vec<F>>, xi: &Vec<F>, x: &Vec<F>) -> (r: F)
    requires
        forall|p: int| 0 <= p < inv@.len() ==> (#[trigger] inv@[p])@.len() == inv@.len(),
        xi@.len() == inv@.len(),
        x@.len() == inv@.len(),
    ensures
        r == arg_k(mat_of(inv@), xi@, x@, inv@.len() as nat),
{
    let d: usize = inv.len();
    let mut acc: F = F::zero();
    let mut i: usize = 0;
    while i < d
        invariant
            i <= d,
            acc == arg_k(mat_of(inv@), xi@, x@, i as nat),
        decreases d - i,
    {
        let mut z: F = F::zero();
        let mut t: usize = 0;
        while t < i + 1
            invariant
                t <= i + 1,
                i < d,
                z == zrow_k(mat_of(inv@)[i as int], xi@, x@, t as nat),
            decreases i + 1 - t,
        {
            z = z.plus(inv[i][t].times(xi[t].minus(x[t])));
            t = t + 1;
        }
        acc = acc.plus(z.times(z));
        i = i + 1;
    }
    acc
}

impl<F: Scalar, B: Bandwidth<F>> GaussianKDE<F, B> {
    /// Evaluate the probability density estimated by the KDE at the
    /// point `x`.
    ///
    /// The dimension of `x` must match the dimension of the KDE dataset:
    /// a mismatch is a contract violation, not a recoverable error.
    #[verifier::loop_isolation(false)]
    pub fn eval(&self, x: &Vec<F>) -> (r: F)
        requires
            self@.wf(),
            x@.len() == self@.dim(),
        ensures
            r == spec_eval(self@, x@),
    {
        let data = self.data();
        let inv = self.inv_cholesky_ref();
        let n: usize = data.len();
        proof {
            assert(n == self@.n());
            assert(inv@.len() == self@.dim());
            assert forall|p: int| 0 <= p < inv@.len() implies (#[trigger] inv@[p])@.len()
                == inv@.len() by {
                assert(self@.inv_cholesky[p].len() == self@.dim());
                assert(inv@[p]@ == self@.inv_cholesky[p]);
            }
        }
        let mut acc: F = F::zero();
        let mut i: usize = 0;
        while i < n
            invariant
                i <= n,
                acc == eval_sum_k(self@, x@, i as nat),
            decreases n - i,
        {
            proof {
                assert(self@.data[i as int].len() == self@.dim());
                assert(data@[i as int]@ == self@.data[i as int]);
            }
            let arg: F = point_arg(inv, &data[i], x);
            let e: F = F::from_usize(2).recip().negate().times(arg).exp();
            acc = match self.weights() {
                Option::Some(w) => acc.plus(w[i].times(e)),
                Option::None => acc.plus(e),
            };
            i = i + 1;
        }
        acc.times(self.normalization_val())
    }

    /// Evaluate the probability density estimated by the KDE at multiple
    /// points, given as a rectangular array of shape `(n_points, dim)`.
    ///
    /// Each row's result is the same value [`eval`](Self::eval) returns
    /// for that row: batching does not change numeric results.
    #[verifier::loop_isolation(false)]
    pub fn eval_batch(&self, x: &Vec<Vec<F>>) -> (r: Vec<F>)
        requires
            self@.wf(),
            forall|j: int| 0 <= j < x@.len() ==> (#[trigger] x@[j])@.len() == self@.dim(),
        ensures
            r@.len() == x@.len(),
            forall|j: int| 0 <= j < x@.len() ==> r@[j] == spec_eval(self@, x@[j]@),
    {
        let mut out: Vec<F> = Vec::new();
        let mut j: usize = 0;
        while j < x.len()
            invariant
                j <= x@.len(),
                out@.len() == j,
                forall|q: int| 0 <= q < j ==> out@[q] == spec_eval(self@, x@[q]@),
            decreases x@.len() - j,
        {
            out.push(self.eval(&x[j]));
            j = j + 1;
        }
        out
    }
}

} // verus!

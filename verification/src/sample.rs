//! Random sampling from the estimated density.
//!
//! A draw picks a source data point — by a categorical draw over the
//! weights when they are present, uniformly otherwise — and shifts it by
//! the Cholesky factor applied to a vector of independent standard-normal
//! deviates. The randomness itself is an injected capability: the engine
//! only consumes uniform index draws, categorical draws and
//! standard-normal deviates from a caller-supplied source.

use vstd::prelude::*;

use crate::bandwidth::Bandwidth;
use crate::linalg::{dot_k, dot_prefix, wsum_k};
use crate::scalar::Scalar;
use crate::{GaussianKDE, KDEView};

verus! {

/// Weights a categorical draw accepts: at least one entry, none below
/// the additive identity, and a sum strictly above it.
pub open spec fn spec_weights_valid<F: Scalar>(w: Seq<F>) -> bool {
    &&& w.len() >= 1
    &&& forall|t: int| 0 <= t < w.len() ==> F::spec_zero().spec_leq(#[trigger] w[t])
    &&& !wsum_k(w, w.len()).spec_leq(F::spec_zero())
}

/// Whether a model can be sampled from: it holds at least one point,
/// and its weights, if present, admit a categorical draw. These are the
/// construction-time invariants of a model meant for sampling.
pub open spec fn spec_can_sample<F: Scalar>(v: KDEView<F>) -> bool {
    &&& v.n() >= 1
    &&& (v.weights matches Option::Some(w) ==> spec_weights_valid(w))
}

/// A sampled point: data point `i` shifted by the lower-triangular
/// Cholesky factor applied to the deviate vector `z`.
pub open spec fn spec_shift<F: Scalar>(v: KDEView<F>, i: int, z: Seq<F>) -> Seq<F> {
    Seq::new(
        v.dim() as nat,
        |c: int| v.data[i][c].spec_plus(dot_k(v.cholesky[c], z, (c + 1) as nat)),
    )
}

/// Whether `row` is a point the sampler can produce from `v`: the shift
/// of some data point by the Cholesky factor applied to some deviate
/// vector of the model's dimension.
pub open spec fn spec_is_sample_of<F: Scalar>(v: KDEView<F>, row: Seq<F>) -> bool {
    exists|i: int, z: Seq<F>| 0 <= i < v.n() && z.len() == v.dim() && row == spec_shift(v, i, z)
}

/// A source of the random deviates sampling consumes. Implementations
/// live outside this crate and wrap a random number generator.
///
/// An implementation must return an index within the stated range; for
/// the categorical draw it may assume the weights are valid in the sense
/// of [`spec_weights_valid`]. Nothing is assumed about the distribution
/// or the values of the draws.
pub trait RandomSource<F: Scalar> {
    /// Draw an index uniformly from `[0, n)`.
    fn uniform_index(&mut self, n: usize) -> (r: usize)
        requires
            n >= 1,
        ensures
            r < n,
    ;

    /// Draw an index from `[0, weights.len())`, each index with
    /// probability proportional to its weight.
    fn weighted_index(&mut self, weights: &Vec<F>) -> (r: usize)
        requires
            spec_weights_valid(weights@),
        ensures
            r < weights@.len(),
    ;

    /// Draw a standard-normal deviate.
    fn standard_normal(&mut self) -> F;
}

impl<F: Scalar, B: Bandwidth<F>> GaussianKDE<F, B> {
    /// Sample a random point from the probability density estimated by
    /// the KDE using the given random source: a data point chosen by the
    /// source, shifted by the Cholesky factor applied to a vector of
    /// standard-normal deviates drawn from the source.
    #[verifier::loop_isolation(false)]
    pub fn sample_with_rng<R: RandomSource<F>>(&self, rng: &mut R) -> (r: Vec<F>)
        requires
            self@.wf(),
            spec_can_sample(self@),
        ensures
            r@.len() == self@.dim(),
            spec_is_sample_of(self@, r@),
    {
        let data = self.data();
        let chol = self.cholesky();
        let n: usize = data.len();
        let d: usize = chol.len();
        proof {
            assert(n == self@.n());
            assert(d == self@.dim());
        }
        let i: usize = match self.weights() {
            Option::Some(w) => rng.weighted_index(w),
            Option::None => rng.uniform_index(n),
        };
        let mut z: Vec<F> = Vec::new();
        let mut t: usize = 0;
        while t < d
            invariant
                t <= d,
                z@.len() == t,
            decreases d - t,
        {
            z.push(rng.standard_normal());
            t = t + 1;
        }
        let mut out: Vec<F> = Vec::new();
        let mut c: usize = 0;
        while c < d
            invariant
                c <= d,
                i < n,
                z@.len() == d,
                out@.len() == c,
                forall|q: int| 0 <= q < c ==> out@[q] == spec_shift(self@, i as int, z@)[q],
            decreases d - c,
        {
            proof {
                assert(self@.cholesky[c as int].len() == self@.dim());
                assert(self@.data[i as int].len() == self@.dim());
                assert(chol@[c as int]@ == self@.cholesky[c as int]);
                assert(data@[i as int]@ == self@.data[i as int]);
            }
            let s: F = dot_prefix(&chol[c], &z, c + 1);
            out.push(data[i][c].plus(s));
            c = c + 1;
        }
        proof {
            assert(out@ =~= spec_shift(self@, i as int, z@));
            assert((i as int) < self@.n() && z@.len() == self@.dim() && out@ == spec_shift(
                self@,
                i as int,
                z@,
            ));
            assert(spec_is_sample_of(self@, out@));
        }
        out
    }

    /// Sample `count` random points from the probability density
    /// estimated by the KDE using the given random source. Each row of
    /// the result is one independent repetition of the single-draw
    /// procedure of [`sample_with_rng`](Self::sample_with_rng).
    #[verifier::loop_isolation(false)]
    pub fn sample_batch_with_rng<R: RandomSource<F>>(&self, count: usize, rng: &mut R) -> (r: Vec<
        Vec<F>,
    >)
        requires
            self@.wf(),
            spec_can_sample(self@),
        ensures
            r@.len() == count,
            forall|j: int| 0 <= j < count ==> (#[trigger] r@[j])@.len() == self@.dim(),
            forall|j: int| 0 <= j < count ==> spec_is_sample_of(self@, (#[trigger] r@[j])@),
    {
        let mut out: Vec<Vec<F>> = Vec::new();
        let mut j: usize = 0;
        while j < count
            invariant
                j <= count,
                out@.len() == j,
                forall|q: int| 0 <= q < j ==> (#[trigger] out@[q])@.len() == self@.dim(),
                forall|q: int| 0 <= q < j ==> spec_is_sample_of(self@, (#[trigger] out@[q])@),
            decreases count - j,
        {
            let s: Vec<F> = self.sample_with_rng(rng);
            out.push(s);
            j = j + 1;
        }
        out
    }
}

} // verus!

//! Multivariate kernel density estimation (KDE) with Gaussian kernels and
//! optionally weighted data points, generic over the scalar number type.
//!
//! Given a dataset of `n` points in `d` dimensions and optional per-point
//! weights, the estimator places a Gaussian kernel at every point. The
//! kernel covariance is the dataset's own (weighted) covariance scaled by
//! the square of a scalar bandwidth factor chosen by a pluggable policy.
//! A fitted model is immutable and owns the dataset, the weights, the
//! Cholesky factor of the scaled covariance, the factor's triangular
//! inverse and a scalar normalization constant; evaluation, dimension
//! marginalization and random sampling are pure consumers of it.

use core::marker::PhantomData;

use vstd::prelude::*;

pub mod bandwidth;
pub mod cholesky;
pub mod error;
pub mod eval;
pub mod linalg;
pub mod sample;
pub mod scalar;

pub use bandwidth::{Bandwidth, ScottBandwidth, SilvermanBandwidth};
pub use error::{ErrorKind, KDEError};

use crate::cholesky::{
    cholesky_decomposition, cholesky_inverse, spec_chol_inverse, spec_chol_ok, spec_cholesky,
};
use crate::linalg::{
    cen_sum, cen_sum_k, col_sum, col_sum_k, copy_opt_vec, diag_prod, diag_prod_k, dims_of,
    dot_k, dot_prefix, mat_of, opt_ref_seq_of, opt_seq_of, project_cols, spec_is_matrix,
    spec_project, sum_vec, wcen_sum, wcen_sum_k, wcol_sum, wcol_sum_k, wsum_k,
};
use crate::scalar::Scalar;

verus! {

/// The mathematical content of a fitted model: the dataset, the optional
/// weights, the Cholesky factor of the scaled covariance, its triangular
/// inverse, and the normalization constant.
pub struct KDEView<F> {
    pub data: Seq<Seq<F>>,
    pub weights: Option<Seq<F>>,
    pub cholesky: Seq<Seq<F>>,
    pub inv_cholesky: Seq<Seq<F>>,
    pub normalization: F,
}

impl<F> KDEView<F> {
    /// The number of data points.
    pub open spec fn n(self) -> int {
        self.data.len() as int
    }

    /// The dimension of the data points.
    pub open spec fn dim(self) -> int {
        dims_of(self.data)
    }

    /// Well-formedness: the dataset is rectangular with at least as many
    /// points as dimensions, the weights (if present) have one entry per
    /// point, and the two triangular matrices are square of the data's
    /// dimension. The dimension bound is what the integer-power operation
    /// of the scalar type admits.
    pub open spec fn wf(self) -> bool {
        &&& spec_is_matrix(self.data)
        &&& self.dim() <= self.n()
        &&& self.dim() <= 2147483647
        &&& (self.weights matches Option::Some(w) ==> w.len() == self.data.len())
        &&& self.cholesky.len() == self.dim()
        &&& (forall|r: int|
            0 <= r < self.cholesky.len() ==> (#[trigger] self.cholesky[r]).len() == self.dim())
        &&& self.inv_cholesky.len() == self.dim()
        &&& (forall|r: int|
            0 <= r < self.inv_cholesky.len() ==> (#[trigger] self.inv_cholesky[r]).len()
                == self.dim())
    }
}

/// The sum of the weights, or the point count when no weights are given.
pub open spec fn spec_sum_weights<F: Scalar>(n: nat, weights: Option<Seq<F>>) -> F {
    match weights {
        Option::Some(w) => wsum_k(w, w.len()),
        Option::None => F::spec_from_usize(n as usize),
    }
}

/// The per-dimension (weighted) mean of the dataset.
pub open spec fn spec_means<F: Scalar>(data: Seq<Seq<F>>, weights: Option<Seq<F>>) -> Seq<F> {
    let n = data.len();
    Seq::new(
        dims_of(data) as nat,
        |c: int|
            match weights {
                Option::Some(w) => wcol_sum_k(data, w, c, n).spec_divide(wsum_k(w, w.len())),
                Option::None => col_sum_k(data, c, n).spec_divide(F::spec_from_usize(n as usize)),
            },
    )
}

/// The bias-correcting denominator of the (weighted) covariance:
/// `sum(w) - sum(w^2)/sum(w)` with weights, `n - 1` without.
pub open spec fn spec_cov_denom<F: Scalar>(n: nat, weights: Option<Seq<F>>) -> F {
    match weights {
        Option::Some(w) => {
            let sw = wsum_k(w, w.len());
            sw.spec_minus(dot_k(w, w, w.len()).spec_divide(sw))
        },
        Option::None => F::spec_from_usize(n as usize).spec_minus(F::spec_one()),
    }
}

/// The (weighted, bias-corrected) covariance of the dataset, each entry
/// scaled by the square of the bandwidth factor `bw`.
pub open spec fn spec_cov<F: Scalar>(data: Seq<Seq<F>>, weights: Option<Seq<F>>, bw: F) -> Seq<
    Seq<F>,
> {
    let n = data.len();
    let means = spec_means(data, weights);
    let denom = spec_cov_denom(n, weights);
    Seq::new(
        dims_of(data) as nat,
        |i: int|
            Seq::new(
                dims_of(data) as nat,
                |j: int|
                    match weights {
                        Option::Some(w) => wcen_sum_k(
                            data,
                            w,
                            i,
                            means[i],
                            j,
                            means[j],
                            n,
                        ).spec_divide(denom).spec_times(bw).spec_times(bw),
                        Option::None => cen_sum_k(
                            data,
                            i,
                            means[i],
                            j,
                            means[j],
                            n,
                        ).spec_divide(denom).spec_times(bw).spec_times(bw),
                    },
            ),
    )
}

/// The scaled covariance a builder with policy `B` factorizes.
pub open spec fn spec_build_cov<F: Scalar, B: Bandwidth<F>>(
    data: Seq<Seq<F>>,
    weights: Option<Seq<F>>,
) -> Seq<Seq<F>> {
    spec_cov(data, weights, B::spec_bandwidth(data, weights))
}

/// Structural mismatch: weights are given but their count differs from
/// the number of data points.
pub open spec fn spec_shape_bad<F>(data: Seq<Seq<F>>, weights: Option<Seq<F>>) -> bool {
    weights matches Option::Some(w) && w.len() != data.len()
}

/// Whether construction succeeds: the shapes agree, there are at least
/// as many points as dimensions, and every pivot of the factorization of
/// the scaled covariance is strictly positive.
pub open spec fn spec_build_ok<F: Scalar, B: Bandwidth<F>>(
    data: Seq<Seq<F>>,
    weights: Option<Seq<F>>,
) -> bool {
    &&& !spec_shape_bad(data, weights)
    &&& data.len() >= dims_of(data)
    &&& spec_chol_ok(spec_build_cov::<F, B>(data, weights))
}

/// The normalization constant: the reciprocal of
/// `sum(w) * det(L) * sqrt(2 pi)^d`, where `det(L)` is the product of the
/// factor's diagonal.
pub open spec fn spec_normalization<F: Scalar>(
    n: nat,
    weights: Option<Seq<F>>,
    l: Seq<Seq<F>>,
    d: nat,
) -> F {
    spec_sum_weights(n, weights).spec_times(diag_prod_k(l, l.len())).spec_times(
        F::spec_from_usize(2).spec_times(F::spec_pi()).spec_sqrt().spec_powi(d as usize),
    ).spec_recip()
}

/// The model a successful build with policy `B` produces, field by field.
pub open spec fn spec_model<F: Scalar, B: Bandwidth<F>>(
    data: Seq<Seq<F>>,
    weights: Option<Seq<F>>,
) -> KDEView<F> {
    let l = spec_cholesky(spec_build_cov::<F, B>(data, weights));
    KDEView {
        data: data,
        weights: weights,
        cholesky: l,
        inv_cholesky: spec_chol_inverse(l),
        normalization: spec_normalization(data.len(), weights, l, dims_of(data) as nat),
    }
}

/// Every listed dimension index is within `[0, d)`.
pub open spec fn spec_dims_ok(dims: Seq<usize>, d: int) -> bool {
    forall|t: int| 0 <= t < dims.len() ==> (#[trigger] dims[t] as int) < d
}

/// The ascending list of the column indices below `d` that `drop` does
/// not mention: the columns that survive a marginalization over `drop`.
pub open spec fn kept_of(d: nat, drop: Seq<usize>) -> Seq<usize>
    decreases d,
{
    if d == 0 {
        Seq::empty()
    } else {
        let p = kept_of((d - 1) as nat, drop);
        if drop.contains((d - 1) as usize) {
            p
        } else {
            p.push((d - 1) as usize)
        }
    }
}

/// The projected dataset that a marginalization of `v` over the dropped
/// dimensions `drop` refits.
pub open spec fn spec_marg_data<F>(v: KDEView<F>, drop: Seq<usize>) -> Seq<Seq<F>> {
    spec_project(v.data, kept_of(v.dim() as nat, drop))
}

/// A strictly ascending sequence of indices.
pub open spec fn spec_strictly_increasing(s: Seq<usize>) -> bool {
    forall|a: int, b: int| 0 <= a < b < s.len() ==> #[trigger] s[a] < #[trigger] s[b]
}

/// Multivariate kernel density estimation with Gaussian kernels and
/// optionally weighted data points. Immutable once constructed; the
/// bandwidth policy used at construction is remembered in the type so
/// that marginalization refits with the same rule.
pub struct GaussianKDE<F: Scalar, B: Bandwidth<F>> {
    data: Vec<Vec<F>>,
    weights: Option<Vec<F>>,
    cholesky: Vec<Vec<F>>,
    inv_cholesky: Vec<Vec<F>>,
    normalization: F,
    _bandwidth_marker: PhantomData<B>,
}

impl<F: Scalar, B: Bandwidth<F>> View for GaussianKDE<F, B> {
    type V = KDEView<F>;

    closed spec fn view(&self) -> KDEView<F> {
        KDEView {
            data: mat_of(self.data@),
            weights: opt_seq_of(self.weights),
            cholesky: mat_of(self.cholesky@),
            inv_cholesky: mat_of(self.inv_cholesky@),
            normalization: self.normalization,
        }
    }
}

impl<F: Scalar> GaussianKDE<F, ScottBandwidth> {
    /// Create a new kernel density estimator from the given dataset and
    /// (optionally) weights using the default bandwidth choice
    /// [`ScottBandwidth`]. If no weights are given, all points are
    /// weighed equally.
    ///
    /// The dataset is expected to be given as a rectangular row-major
    /// array of shape `(n_points, dim)`.
    pub fn new(data: Vec<Vec<F>>, weights: Option<Vec<F>>) -> (r: Result<
        GaussianKDE<F, ScottBandwidth>,
        KDEError,
    >)
        requires
            spec_is_matrix(mat_of(data@)),
            dims_of(mat_of(data@)) <= 2147483647,
        ensures
            (r is Ok) == spec_build_ok::<F, ScottBandwidth>(mat_of(data@), opt_seq_of(weights)),
            r matches Ok(m) ==> m@ == spec_model::<F, ScottBandwidth>(
                mat_of(data@),
                opt_seq_of(weights),
            ) && m@.wf(),
            r matches Err(e) ==> (e.kind == ErrorKind::ShapeError <==> spec_shape_bad(
                mat_of(data@),
                opt_seq_of(weights),
            )),
            r matches Err(e) ==> e.kind == ErrorKind::ShapeError || e.kind
                == ErrorKind::SingularityError,
    {
        Self::with_bandwidth(data, weights)
    }
}

impl<F: Scalar, B: Bandwidth<F>> GaussianKDE<F, B> {
    /// Get a view of the KDE's data.
    pub fn data(&self) -> (r: &Vec<Vec<F>>)
        ensures
            mat_of(r@) == self@.data,
    {
        &self.data
    }

    /// Get a view of the KDE's weights.
    pub fn weights(&self) -> (r: Option<&Vec<F>>)
        ensures
            opt_ref_seq_of(r) == self@.weights,
    {
        match &self.weights {
            Option::Some(w) => Option::Some(w),
            Option::None => Option::None,
        }
    }

    /// Get a view of the lower-triangular matrix obtained from the
    /// Cholesky decomposition of the dataset's scaled covariance matrix.
    pub fn cholesky(&self) -> (r: &Vec<Vec<F>>)
        ensures
            mat_of(r@) == self@.cholesky,
    {
        &self.cholesky
    }

    pub(crate) fn inv_cholesky_ref(&self) -> (r: &Vec<Vec<F>>)
        ensures
            mat_of(r@) == self@.inv_cholesky,
    {
        &self.inv_cholesky
    }

    pub(crate) fn normalization_val(&self) -> (r: F)
        ensures
            r == self@.normalization,
    {
        self.normalization
    }

    /// Create a new kernel density estimator from the given dataset and
    /// (optionally) weights using the specified bandwidth factor choice.
    /// If no weights are given, all points are weighed equally.
    ///
    /// Fails with a `ShapeError` when the weight count does not match the
    /// point count, and with a `SingularityError` when there are fewer
    /// points than dimensions or the scaled covariance is not
    /// positive-definite; succeeds otherwise, with every field of the
    /// model pinned down by [`spec_model`].
    #[verifier::loop_isolation(false)]
    pub fn with_bandwidth(data: Vec<Vec<F>>, weights: Option<Vec<F>>) -> (r: Result<
        GaussianKDE<F, B>,
        KDEError,
    >)
        requires
            spec_is_matrix(mat_of(data@)),
            dims_of(mat_of(data@)) <= 2147483647,
        ensures
            (r is Ok) == spec_build_ok::<F, B>(mat_of(data@), opt_seq_of(weights)),
            r matches Ok(m) ==> m@ == spec_model::<F, B>(mat_of(data@), opt_seq_of(weights))
                && m@.wf(),
            r matches Err(e) ==> (e.kind == ErrorKind::ShapeError <==> spec_shape_bad(
                mat_of(data@),
                opt_seq_of(weights),
            )),
            r matches Err(e) ==> e.kind == ErrorKind::ShapeError || e.kind
                == ErrorKind::SingularityError,
    {
        let ghost dd = mat_of(data@);
        let ghost ww = opt_seq_of(weights);
        let n: usize = data.len();
        let d: usize = if n == 0 {
            0
        } else {
            data[0].len()
        };
        let weights_bad: bool = match &weights {
            Option::Some(w) => w.len() != n,
            Option::None => false,
        };
        if weights_bad {
            return Err(
                KDEError::new(
                    ErrorKind::ShapeError,
                    "the number of weights does not match the number of data points".to_owned(),
                ),
            );
        }
        if n < d {
            return Err(
                KDEError::new(
                    ErrorKind::SingularityError,
                    "the dataset has fewer entries than dimensions, resulting in a singular covariance matrix".to_owned(),
                ),
            );
        }
        let sum_w: F = match &weights {
            Option::Some(w) => sum_vec(w),
            Option::None => F::from_usize(n),
        };
        assert(sum_w == spec_sum_weights(n as nat, ww));
        let bw: F = B::bandwidth(
            &data,
            match &weights {
                Option::Some(w) => Option::Some(w),
                Option::None => Option::None,
            },
        );
        assert(bw == B::spec_bandwidth(dd, ww));
        let mut means: Vec<F> = Vec::new();
        let mut c: usize = 0;
        while c < d
            invariant
                c <= d,
                means@.len() == c,
                forall|t: int| 0 <= t < c ==> means@[t] == spec_means(dd, ww)[t],
            decreases d - c,
        {
            let s: F = match &weights {
                Option::Some(w) => wcol_sum(&data, w, c),
                Option::None => col_sum(&data, c),
            };
            means.push(s.divide(sum_w));
            c = c + 1;
        }
        assert(means@ =~= spec_means(dd, ww));
        let denom: F = match &weights {
            Option::Some(w) => sum_w.minus(dot_prefix(w, w, w.len()).divide(sum_w)),
            Option::None => sum_w.minus(F::one()),
        };
        assert(denom == spec_cov_denom(n as nat, ww));
        let ghost cc = spec_cov(dd, ww, bw);
        let mut cov: Vec<Vec<F>> = Vec::new();
        let mut i: usize = 0;
        while i < d
            invariant
                i <= d,
                cov@.len() == i,
                forall|p: int| 0 <= p < i ==> (#[trigger] cov@[p])@ == cc[p],
            decreases d - i,
        {
            let mut row: Vec<F> = Vec::new();
            let mut j: usize = 0;
            while j < d
                invariant
                    i < d,
                    j <= d,
                    row@.len() == j,
                    forall|q: int| 0 <= q < j ==> row@[q] == cc[i as int][q],
                decreases d - j,
            {
                let s: F = match &weights {
                    Option::Some(w) => wcen_sum(&data, w, i, means[i], j, means[j]),
                    Option::None => cen_sum(&data, i, means[i], j, means[j]),
                };
                row.push(s.divide(denom).times(bw).times(bw));
                j = j + 1;
            }
            assert(row@ =~= cc[i as int]);
            cov.push(row);
            i = i + 1;
        }
        assert(mat_of(cov@) =~~= cc);
        let chol: Vec<Vec<F>> = match cholesky_decomposition(&cov) {
            Ok(l) => l,
            Err(e) => {
                return Err(e);
            },
        };
        let inv: Vec<Vec<F>> = cholesky_inverse(&chol);
        let det: F = diag_prod(&chol);
        let normalization: F = sum_w.times(det).times(
            F::from_usize(2).times(F::pi()).sqrt().powi(d),
        ).recip();
        let model = GaussianKDE {
            data,
            weights,
            cholesky: chol,
            inv_cholesky: inv,
            normalization,
            _bandwidth_marker: PhantomData,
        };
        proof {
            assert(model@ == spec_model::<F, B>(dd, ww));
            assert(model@.wf());
        }
        Ok(model)
    }

    /// Marginalize the density by integrating out the components given in
    /// `dims`. For Gaussian kernels this is exact: the surviving columns
    /// are selected, in ascending order, and the builder is re-run on the
    /// projected data with the same weights and the same bandwidth
    /// policy. Fails with an `IndexError` when any listed index is out of
    /// `[0, d)`; a failure of the refit is surfaced unchanged.
    #[verifier::loop_isolation(false)]
    pub fn marginalize(&self, dims: &Vec<usize>) -> (r: Result<GaussianKDE<F, B>, KDEError>)
        requires
            self@.wf(),
        ensures
            (r is Err && r->Err_0.kind == ErrorKind::IndexError) <==> !spec_dims_ok(
                dims@,
                self@.dim(),
            ),
            spec_dims_ok(dims@, self@.dim()) ==> ((r is Ok) == spec_build_ok::<F, B>(
                spec_marg_data(self@, dims@),
                self@.weights,
            )),
            r matches Ok(m2) ==> (spec_dims_ok(dims@, self@.dim()) ==> m2@ == spec_model::<F, B>(
                spec_marg_data(self@, dims@),
                self@.weights,
            ) && m2@.wf()),
            r matches Err(e) ==> e.kind == ErrorKind::IndexError || e.kind
                == ErrorKind::SingularityError,
    {
        let d: usize = self.cholesky.len();
        assert(d == self@.dim());
        let mut t: usize = 0;
        while t < dims.len()
            invariant
                t <= dims@.len(),
                forall|q: int| 0 <= q < t ==> (#[trigger] dims@[q] as int) < self@.dim(),
            decreases dims@.len() - t,
        {
            if dims[t] >= d {
                return Err(
                    KDEError::new(
                        ErrorKind::IndexError,
                        "a marginalization index is out of bounds for the dimension of the data".to_owned(),
                    ),
                );
            }
            t = t + 1;
        }
        assert(spec_dims_ok(dims@, self@.dim()));
        let mut keep: Vec<usize> = Vec::new();
        let mut c: usize = 0;
        while c < d
            invariant
                c <= d,
                keep@ == kept_of(c as nat, dims@),
                keep@.len() <= c,
                forall|q: int| 0 <= q < keep@.len() ==> (#[trigger] keep@[q] as int) < c,
            decreases d - c,
        {
            if !vec_contains(dims, c) {
                keep.push(c);
            }
            c = c + 1;
        }
        let proj: Vec<Vec<F>> = project_cols(&self.data, &keep);
        let w2: Option<Vec<F>> = copy_opt_vec(&self.weights);
        let r = Self::with_bandwidth(proj, w2);
        proof {
            assert(!spec_shape_bad(spec_marg_data(self@, dims@), self@.weights));
        }
        r
    }

    /// Marginalize the density by integrating out all components but the
    /// ones given in `dims`: the listed columns are selected, in the
    /// given order, and the builder is re-run on the projected data with
    /// the same weights and the same bandwidth policy. Fails with an
    /// `IndexError` when any listed index is out of `[0, d)`; a failure
    /// of the refit is surfaced unchanged.
    #[verifier::loop_isolation(false)]
    pub fn marginalize_to(&self, dims: &Vec<usize>) -> (r: Result<GaussianKDE<F, B>, KDEError>)
        requires
            self@.wf(),
            dims@.len() <= 2147483647,
        ensures
            (r is Err && r->Err_0.kind == ErrorKind::IndexError) <==> !spec_dims_ok(
                dims@,
                self@.dim(),
            ),
            spec_dims_ok(dims@, self@.dim()) ==> ((r is Ok) == spec_build_ok::<F, B>(
                spec_project(self@.data, dims@),
                self@.weights,
            )),
            r matches Ok(m2) ==> (spec_dims_ok(dims@, self@.dim()) ==> m2@ == spec_model::<F, B>(
                spec_project(self@.data, dims@),
                self@.weights,
            ) && m2@.wf()),
            r matches Err(e) ==> e.kind == ErrorKind::IndexError || e.kind
                == ErrorKind::SingularityError,
    {
        let d: usize = self.cholesky.len();
        assert(d == self@.dim());
        let mut t: usize = 0;
        while t < dims.len()
            invariant
                t <= dims@.len(),
                forall|q: int| 0 <= q < t ==> (#[trigger] dims@[q] as int) < self@.dim(),
            decreases dims@.len() - t,
        {
            if dims[t] >= d {
                return Err(
                    KDEError::new(
                        ErrorKind::IndexError,
                        "a marginalization index is out of bounds for the dimension of the data".to_owned(),
                    ),
                );
            }
            t = t + 1;
        }
        assert(spec_dims_ok(dims@, self@.dim()));
        let proj: Vec<Vec<F>> = project_cols(&self.data, dims);
        let w2: Option<Vec<F>> = copy_opt_vec(&self.weights);
        let r = Self::with_bandwidth(proj, w2);
        proof {
            assert(!spec_shape_bad(spec_project(self@.data, dims@), self@.weights));
        }
        r
    }
}

fn vec_contains(v: &Vec<usize>, x: usize) -> (r: bool)
    ensures
        r == v@.contains(x),
{
    let mut i: usize = 0;
    while i < v.len()
        invariant
            i <= v@.len(),
            forall|t: int| 0 <= t < i ==> v@[t] != x,
        decreases v@.len() - i,
    {
        if v[i] == x {
            return true;
        }
        i = i + 1;
    }
    assert(!v@.contains(x));
    false
}

/// Complementarity of the two marginalization directions: for a strictly
/// ascending list `keep` of indices below `d` and a drop list that
/// mentions exactly the indices below `d` that `keep` does not, the
/// columns surviving a marginalization over the drop list are exactly
/// `keep`. Marginalizing a model to `keep` and marginalizing it over the
/// complement of `keep` therefore refit the builder on the same
/// projected dataset and produce the same model — in particular, models
/// with identical Cholesky factors and normalization.
pub proof fn lemma_marginalize_complement<F: Scalar, B: Bandwidth<F>>(
    d: nat,
    keep: Seq<usize>,
    drop: Seq<usize>,
    data: Seq<Seq<F>>,
    weights: Option<Seq<F>>,
)
    requires
        d <= usize::MAX,
        spec_strictly_increasing(keep),
        forall|t: int| 0 <= t < keep.len() ==> (#[trigger] keep[t] as int) < d,
        forall|c: usize| (c as int) < d ==> ((#[trigger] keep.contains(c)) <==> !drop.contains(c)),
    ensures
        kept_of(d, drop) == keep,
        spec_project(data, kept_of(d, drop)) == spec_project(data, keep),
        spec_model::<F, B>(spec_project(data, kept_of(d, drop)), weights) == spec_model::<F, B>(
            spec_project(data, keep),
            weights,
        ),
    decreases d,
{
    if d == 0 {
        assert(keep.len() == 0) by {
            if keep.len() > 0 {
                assert((keep[0] as int) < 0);
            }
        }
        assert(kept_of(d, drop) =~= keep);
    } else {
        let c = (d - 1) as usize;
        if drop.contains(c) {
            assert(!keep.contains(c));
            assert forall|t: int| 0 <= t < keep.len() implies (#[trigger] keep[t] as int) < d
                - 1 by {
                if keep[t] == c {
                    assert(keep.contains(c));
                }
            }
            lemma_marginalize_complement::<F, B>((d - 1) as nat, keep, drop, data, weights);
        } else {
            assert(keep.contains(c));
            let idx = choose|idx: int| 0 <= idx < keep.len() && keep[idx] == c;
            assert(idx == keep.len() - 1) by {
                if idx < keep.len() - 1 {
                    assert(keep[idx] < keep[keep.len() - 1]);
                    assert((keep[keep.len() - 1] as int) < d);
                }
            }
            let kp = keep.drop_last();
            assert forall|t: int| 0 <= t < kp.len() implies (#[trigger] kp[t] as int) < d - 1 by {
                assert(kp[t] == keep[t]);
                assert(keep[t] < keep[keep.len() - 1]);
            }
            assert forall|q: usize| (q as int) < d - 1 implies ((#[trigger] kp.contains(q))
                <==> !drop.contains(q)) by {
                if kp.contains(q) {
                    let u = choose|u: int| 0 <= u < kp.len() && kp[u] == q;
                    assert(keep[u] == q);
                    assert(keep.contains(q));
                } else {
                    if keep.contains(q) {
                        let u = choose|u: int| 0 <= u < keep.len() && keep[u] == q;
                        assert(u != keep.len() - 1);
                        assert(kp[u] == q);
                        assert(kp.contains(q));
                    }
                }
            }
            lemma_marginalize_complement::<F, B>((d - 1) as nat, kp, drop, data, weights);
            assert(kept_of(d, drop) =~= keep) by {
                assert(kept_of((d - 1) as nat, drop) == kp);
                assert(keep =~= kp.push(c));
            }
        }
    }
}

} // verus!

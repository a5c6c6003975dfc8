//! Scalar bandwidth selection policies.

use vstd::prelude::*;

use crate::linalg::{dims_of, dot_k, dot_prefix, mat_of, opt_ref_seq_of, sum_vec, wsum_k};
use crate::scalar::Scalar;

verus! {

/// The effective number of entries of a (weighted) dataset: the squared
/// weight sum over the sum of squared weights, or the plain row count
/// when no weights are given.
pub open spec fn spec_n_eff<F: Scalar>(data: Seq<Seq<F>>, weights: Option<Seq<F>>) -> F {
    match weights {
        Option::Some(w) => wsum_k(w, w.len()).spec_powi(2).spec_divide(dot_k(w, w, w.len())),
        Option::None => F::spec_from_usize(data.len() as usize),
    }
}

/// General trait to customize the selection of the scalar bandwidth factor.
///
/// A policy is a pure function of the dataset and the optional weights; the
/// specification twin names its exact value so that a fitted model's
/// contract can be stated in closed form.
pub trait Bandwidth<F: Scalar> {
    /// The value the policy selects.
    spec fn spec_bandwidth(data: Seq<Seq<F>>, weights: Option<Seq<F>>) -> F;

    /// Compute the scalar bandwidth factor for the given dataset and
    /// optional weights.
    fn bandwidth(data: &Vec<Vec<F>>, weights: Option<&Vec<F>>) -> (r: F)
        requires
            dims_of(mat_of(data@)) + 4 <= usize::MAX as int,
        ensures
            r == Self::spec_bandwidth(mat_of(data@), opt_ref_seq_of(weights)),
    ;
}

/// Select the scalar bandwidth factor according to Scott's rule:
/// the effective sample size raised to the power `-1 / (d + 4)`,
/// where `d` is the dimension of the dataset.
pub struct ScottBandwidth {}

impl<F: Scalar> Bandwidth<F> for ScottBandwidth {
    open spec fn spec_bandwidth(data: Seq<Seq<F>>, weights: Option<Seq<F>>) -> F {
        spec_n_eff(data, weights).spec_powf(
            F::spec_from_usize((dims_of(data) + 4) as usize).spec_recip().spec_negate(),
        )
    }

    fn bandwidth(data: &Vec<Vec<F>>, weights: Option<&Vec<F>>) -> (r: F) {
        let d: usize = if data.len() == 0 {
            0
        } else {
            data[0].len()
        };
        let n_eff: F = match weights {
            Option::Some(w) => sum_vec(w).powi(2).divide(dot_prefix(w, w, w.len())),
            Option::None => F::from_usize(data.len()),
        };
        n_eff.powf(F::from_usize(d + 4).recip().negate())
    }
}

/// Select the scalar bandwidth factor according to Silverman's rule of
/// thumb: `((d + 2) / 4 * n_eff)` raised to the power `-1 / (d + 4)`,
/// where `d` is the dimension of the dataset and `n_eff` the effective
/// sample size.
pub struct SilvermanBandwidth {}

impl<F: Scalar> Bandwidth<F> for SilvermanBandwidth {
    open spec fn spec_bandwidth(data: Seq<Seq<F>>, weights: Option<Seq<F>>) -> F {
        F::spec_from_usize(4).spec_recip().spec_times(spec_n_eff(data, weights)).spec_times(
            F::spec_from_usize((dims_of(data) + 2) as usize),
        ).spec_powf(F::spec_from_usize((dims_of(data) + 4) as usize).spec_recip().spec_negate())
    }

    fn bandwidth(data: &Vec<Vec<F>>, weights: Option<&Vec<F>>) -> (r: F) {
        let d: usize = if data.len() == 0 {
            0
        } else {
            data[0].len()
        };
        let n_eff: F = match weights {
            Option::Some(w) => sum_vec(w).powi(2).divide(dot_prefix(w, w, w.len())),
            Option::None => F::from_usize(data.len()),
        };
        F::from_usize(4).recip().times(n_eff).times(F::from_usize(d + 2)).powf(
            F::from_usize(d + 4).recip().negate(),
        )
    }
}

} // verus!

//! Cholesky factorization of a symmetric positive-definite matrix and
//! inversion of a lower-triangular matrix, by the standard forward
//! recurrences.
//!
//! The specification functions below define the factor and the inverse
//! entry by entry, in the exact accumulation order of the executable
//! loops, so that the contracts pin both results down completely.

use vstd::prelude::*;

use crate::error::{ErrorKind, KDEError};
use crate::linalg::{dims_of, dot_k, dot_prefix, mat_of, spec_is_matrix};
use crate::scalar::Scalar;

verus! {

/// The first `j` entries of the factor row with index `prev.len()`,
/// given the already completed rows `prev`: entry `t` is
/// `(m[i][t] - sum_{k<t} L[i][k] L[t][k]) / L[t][t]`.
pub open spec fn chol_row<F: Scalar>(m: Seq<Seq<F>>, prev: Seq<Seq<F>>, j: nat) -> Seq<F>
    decreases j,
{
    if j == 0 {
        Seq::empty()
    } else {
        let p = chol_row(m, prev, (j - 1) as nat);
        p.push(
            (m[prev.len() as int][j - 1].spec_minus(dot_k(p, prev[j - 1], (j - 1) as nat))).spec_divide(
                prev[j - 1][j - 1],
            ),
        )
    }
}

/// The diagonal pivot of the factor row with index `prev.len()`:
/// `m[i][i] - sum_{k<i} L[i][k]^2`.
pub open spec fn chol_pivot<F: Scalar>(m: Seq<Seq<F>>, prev: Seq<Seq<F>>) -> F {
    let i = prev.len() as int;
    let p = chol_row(m, prev, prev.len());
    m[i][i].spec_minus(dot_k(p, p, prev.len()))
}

/// The completed factor row with index `prev.len()`: the sub-diagonal
/// entries, the square root of the pivot, and zeros above the diagonal.
pub open spec fn chol_full_row<F: Scalar>(m: Seq<Seq<F>>, prev: Seq<Seq<F>>) -> Seq<F> {
    let d = m.len() as int;
    let i = prev.len() as int;
    chol_row(m, prev, prev.len()).push(chol_pivot(m, prev).spec_sqrt()) + Seq::new(
        (d - i - 1) as nat,
        |t: int| F::spec_zero(),
    )
}

/// The first `i` completed rows of the factor.
pub open spec fn chol_rows<F: Scalar>(m: Seq<Seq<F>>, i: nat) -> Seq<Seq<F>>
    decreases i,
{
    if i == 0 {
        Seq::empty()
    } else {
        let prev = chol_rows(m, (i - 1) as nat);
        prev.push(chol_full_row(m, prev))
    }
}

/// The lower-triangular Cholesky factor of `m`, row by row.
pub open spec fn spec_cholesky<F: Scalar>(m: Seq<Seq<F>>) -> Seq<Seq<F>> {
    chol_rows(m, m.len())
}

/// Whether the first `i` pivots are strictly positive (not below or at
/// the additive identity in the scalar order).
pub open spec fn chol_ok_upto<F: Scalar>(m: Seq<Seq<F>>, i: nat) -> bool
    decreases i,
{
    if i == 0 {
        true
    } else {
        chol_ok_upto(m, (i - 1) as nat) && !chol_pivot(
            m,
            chol_rows(m, (i - 1) as nat),
        ).spec_leq(F::spec_zero())
    }
}

/// Whether the factorization of `m` succeeds: every pivot is strictly
/// positive.
pub open spec fn spec_chol_ok<F: Scalar>(m: Seq<Seq<F>>) -> bool {
    chol_ok_upto(m, m.len())
}

proof fn lemma_chol_ok_mono<F: Scalar>(m: Seq<Seq<F>>, a: nat, b: nat)
    requires
        a <= b,
        chol_ok_upto(m, b),
    ensures
        chol_ok_upto(m, a),
    decreases b,
{
    if a < b {
        lemma_chol_ok_mono(m, a, (b - 1) as nat);
    }
}

/// Cholesky decomposition by the standard forward recurrence. Succeeds
/// exactly when every diagonal pivot is strictly positive, and then
/// returns exactly the factor that [`spec_cholesky`] describes; fails
/// with a `SingularityError` the moment a pivot is not.
pub fn cholesky_decomposition<F: Scalar>(m: &Vec<Vec<F>>) -> (r: Result<Vec<Vec<F>>, KDEError>)
    requires
        spec_is_matrix(mat_of(m@)),
        dims_of(mat_of(m@)) == m@.len(),
    ensures
        r matches Ok(l) ==> spec_chol_ok(mat_of(m@)) && mat_of(l@) == spec_cholesky(mat_of(m@)),
        r matches Ok(l) ==> l@.len() == m@.len() && forall|p: int|
            0 <= p < l@.len() ==> (#[trigger] l@[p])@.len() == m@.len(),
        r matches Err(e) ==> !spec_chol_ok(mat_of(m@)) && e.kind == ErrorKind::SingularityError,
{
    let ghost mm = mat_of(m@);
    let d: usize = m.len();
    let mut rows: Vec<Vec<F>> = Vec::new();
    let mut i: usize = 0;
    while i < d
        invariant
            i <= d,
            d == m@.len(),
            mm == mat_of(m@),
            spec_is_matrix(mm),
            dims_of(mm) == d,
            rows@.len() == i,
            mat_of(rows@) == chol_rows(mm, i as nat),
            chol_ok_upto(mm, i as nat),
            forall|p: int| 0 <= p < i ==> (#[trigger] rows@[p])@.len() == d,
        decreases d - i,
    {
        let ghost prev = chol_rows(mm, i as nat);
        assert(mm[i as int].len() == d);
        let mut row: Vec<F> = Vec::new();
        let mut j: usize = 0;
        while j < i
            invariant
                j <= i,
                i < d,
                d == m@.len(),
                mm == mat_of(m@),
                spec_is_matrix(mm),
                dims_of(mm) == d,
                rows@.len() == i,
                mat_of(rows@) == chol_rows(mm, i as nat),
                prev == chol_rows(mm, i as nat),
                forall|p: int| 0 <= p < i ==> (#[trigger] rows@[p])@.len() == d,
                row@ == chol_row(mm, prev, j as nat),
                row@.len() == j,
            decreases i - j,
        {
            assert(prev[j as int] == rows@[j as int]@);
            let s: F = dot_prefix(&row, &rows[j], j);
            assert(mm[i as int].len() == d);
            let v: F = (m[i][j].minus(s)).divide(rows[j][j]);
            row.push(v);
            j = j + 1;
            assert(row@ == chol_row(mm, prev, j as nat));
        }
        let s2: F = dot_prefix(&row, &row, i);
        let piv: F = m[i][i].minus(s2);
        assert(piv == chol_pivot(mm, prev));
        if piv.leq(F::zero()) {
            proof {
                assert(!chol_ok_upto(mm, (i + 1) as nat));
                if chol_ok_upto(mm, d as nat) {
                    lemma_chol_ok_mono(mm, (i + 1) as nat, d as nat);
                    assert(false);
                }
            }
            return Err(
                KDEError::new(
                    ErrorKind::SingularityError,
                    "the covariance matrix appears to not be positive-definite".to_owned(),
                ),
            );
        }
        row.push(piv.sqrt());
        let mut k: usize = i + 1;
        while k < d
            invariant
                i + 1 <= k <= d,
                d == m@.len(),
                mm == mat_of(m@),
                prev == chol_rows(mm, i as nat),
                prev.len() == i,
                row@.len() == k,
                row@ == chol_row(mm, prev, i as nat).push(chol_pivot(mm, prev).spec_sqrt())
                    + Seq::new((k - i - 1) as nat, |t: int| F::spec_zero()),
            decreases d - k,
        {
            row.push(F::zero());
            k = k + 1;
            proof {
                let base = chol_row(mm, prev, i as nat).push(chol_pivot(mm, prev).spec_sqrt());
                assert(base + Seq::new((k - i - 2) as nat, |t: int| F::spec_zero()).push(
                    F::spec_zero(),
                ) =~= base + Seq::new((k - i - 1) as nat, |t: int| F::spec_zero()));
            }
        }
        assert(row@ =~= chol_full_row(mm, prev));
        rows.push(row);
        i = i + 1;
        proof {
            assert(mat_of(rows@) =~= chol_rows(mm, i as nat));
        }
    }
    assert(mat_of(rows@) == spec_cholesky(mm));
    Ok(rows)
}

/// The partial column sum used for the inverse: the sum over `t < k` of
/// `m[i][j + t] * prev[j + t][j]`, in ascending order.
pub open spec fn inv_sum_k<F: Scalar>(m: Seq<Seq<F>>, prev: Seq<Seq<F>>, i: int, j: int, k: nat) -> F
    decreases k,
{
    if k == 0 {
        F::spec_zero()
    } else {
        inv_sum_k(m, prev, i, j, (k - 1) as nat).spec_plus(
            m[i][j + (k - 1)].spec_times(prev[j + (k - 1)][j]),
        )
    }
}

/// Row `prev.len()` of the triangular inverse, given the completed rows
/// above it: below the diagonal `-sum_{j<=t<i} m[i][t] inv[t][j] / m[i][i]`,
/// the reciprocal of `m[i][i]` on the diagonal, zeros above.
pub open spec fn inv_full_row<F: Scalar>(m: Seq<Seq<F>>, prev: Seq<Seq<F>>) -> Seq<F> {
    let d = m.len() as int;
    let i = prev.len() as int;
    Seq::new(
        d as nat,
        |j: int|
            if j < i {
                inv_sum_k(m, prev, i, j, (i - j) as nat).spec_negate().spec_divide(m[i][i])
            } else if j == i {
                m[i][i].spec_recip()
            } else {
                F::spec_zero()
            },
    )
}

/// The first `i` completed rows of the triangular inverse.
pub open spec fn inv_rows<F: Scalar>(m: Seq<Seq<F>>, i: nat) -> Seq<Seq<F>>
    decreases i,
{
    if i == 0 {
        Seq::empty()
    } else {
        let prev = inv_rows(m, (i - 1) as nat);
        prev.push(inv_full_row(m, prev))
    }
}

/// The inverse of a lower-triangular matrix, row by row.
pub open spec fn spec_chol_inverse<F: Scalar>(m: Seq<Seq<F>>) -> Seq<Seq<F>> {
    inv_rows(m, m.len())
}

fn inv_dot<F: Scalar>(m: &Vec<Vec<F>>, rows: &Vec<Vec<F>>, i: usize, j: usize) -> (r: F)
    requires
        j < i,
        i < m@.len(),
        spec_is_matrix(mat_of(m@)),
        dims_of(mat_of(m@)) == m@.len(),
        rows@.len() >= i,
        forall|p: int| 0 <= p < rows@.len() ==> (#[trigger] rows@[p])@.len() == m@.len(),
    ensures
        r == inv_sum_k(mat_of(m@), mat_of(rows@), i as int, j as int, (i - j) as nat),
{
    let ghost mm = mat_of(m@);
    let mut acc: F = F::zero();
    let mut t: usize = 0;
    while t < i - j
        invariant
            t <= i - j,
            j < i,
            i < m@.len(),
            mm == mat_of(m@),
            spec_is_matrix(mm),
            dims_of(mm) == m@.len(),
            rows@.len() >= i,
            forall|p: int| 0 <= p < rows@.len() ==> (#[trigger] rows@[p])@.len() == m@.len(),
            acc == inv_sum_k(mm, mat_of(rows@), i as int, j as int, t as nat),
        decreases i - j - t,
    {
        assert(mm[i as int].len() == m@.len());
        acc = acc.plus(m[i][j + t].times(rows[j + t][j]));
        t = t + 1;
    }
    acc
}

/// Inversion of a lower-triangular matrix by forward substitution.
/// Returns exactly the matrix that [`spec_chol_inverse`] describes; the
/// caller guarantees the input is a valid (non-singular) factor, so
/// there is no failure path.
pub fn cholesky_inverse<F: Scalar>(m: &Vec<Vec<F>>) -> (r: Vec<Vec<F>>)
    requires
        spec_is_matrix(mat_of(m@)),
        dims_of(mat_of(m@)) == m@.len(),
    ensures
        mat_of(r@) == spec_chol_inverse(mat_of(m@)),
        r@.len() == m@.len(),
        forall|p: int| 0 <= p < r@.len() ==> (#[trigger] r@[p])@.len() == m@.len(),
{
    let ghost mm = mat_of(m@);
    let d: usize = m.len();
    let mut rows: Vec<Vec<F>> = Vec::new();
    let mut i: usize = 0;
    while i < d
        invariant
            i <= d,
            d == m@.len(),
            mm == mat_of(m@),
            spec_is_matrix(mm),
            dims_of(mm) == d,
            rows@.len() == i,
            mat_of(rows@) == inv_rows(mm, i as nat),
            forall|p: int| 0 <= p < i ==> (#[trigger] rows@[p])@.len() == d,
        decreases d - i,
    {
        let ghost prev = inv_rows(mm, i as nat);
        assert(mm[i as int].len() == d);
        let mut row: Vec<F> = Vec::new();
        let mut j: usize = 0;
        while j < i
            invariant
                j <= i,
                i < d,
                d == m@.len(),
                mm == mat_of(m@),
                spec_is_matrix(mm),
                dims_of(mm) == d,
                rows@.len() == i,
                mat_of(rows@) == inv_rows(mm, i as nat),
                prev == inv_rows(mm, i as nat),
                forall|p: int| 0 <= p < i ==> (#[trigger] rows@[p])@.len() == d,
                row@.len() == j,
                forall|q: int|
                    0 <= q < j ==> row@[q] == inv_sum_k(
                        mm,
                        prev,
                        i as int,
                        q,
                        (i - q) as nat,
                    ).spec_negate().spec_divide(mm[i as int][i as int]),
            decreases i - j,
        {
            let s: F = inv_dot(m, &rows, i, j);
            assert(mm[i as int].len() == d);
            row.push(s.negate().divide(m[i][i]));
            j = j + 1;
        }
        assert(mm[i as int].len() == d);
        row.push(m[i][i].recip());
        let mut k: usize = i + 1;
        while k < d
            invariant
                i + 1 <= k <= d,
                d == m@.len(),
                mm == mat_of(m@),
                prev == inv_rows(mm, i as nat),
                prev.len() == i,
                row@.len() == k,
                forall|q: int|
                    0 <= q < i ==> row@[q] == inv_sum_k(
                        mm,
                        prev,
                        i as int,
                        q,
                        (i - q) as nat,
                    ).spec_negate().spec_divide(mm[i as int][i as int]),
                row@[i as int] == mm[i as int][i as int].spec_recip(),
                forall|q: int| i < q < k ==> row@[q] == F::spec_zero(),
            decreases d - k,
        {
            row.push(F::zero());
            k = k + 1;
        }
        assert(row@ =~= inv_full_row(mm, prev));
        rows.push(row);
        i = i + 1;
        proof {
            assert(mat_of(rows@) =~= inv_rows(mm, i as nat));
        }
    }
    assert(mat_of(rows@) == spec_chol_inverse(mm));
    rows
}

} // verus!

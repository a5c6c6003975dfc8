//! Matrix views, accumulation specifications and the verified accumulation
//! loops shared by the bandwidth policies, the factorization engine, the
//! builder and the evaluator.
//!
//! A matrix is a rectangular `Vec<Vec<F>>`, row-major. Every accumulation
//! below is specified as a left fold in ascending index order, which is
//! exactly the order the executable loops accumulate in; the contracts of
//! the engine pin each produced scalar to one of these folds.

use vstd::prelude::*;

use crate::scalar::Scalar;

verus! {

/// The rows of a vector of vectors, as a sequence of sequences.
pub open spec fn mat_of<F>(m: Seq<Vec<F>>) -> Seq<Seq<F>> {
    Seq::new(m.len(), |i: int| m[i]@)
}

/// The view of an optional weight vector.
pub open spec fn opt_seq_of<F>(o: Option<Vec<F>>) -> Option<Seq<F>> {
    match o {
        Option::Some(v) => Option::Some(v@),
        Option::None => Option::None,
    }
}

/// The view of an optional borrowed weight vector.
pub open spec fn opt_ref_seq_of<F>(o: Option<&Vec<F>>) -> Option<Seq<F>> {
    match o {
        Option::Some(v) => Option::Some(v@),
        Option::None => Option::None,
    }
}

/// The column count of a row-major matrix: the width of its first row,
/// or zero when there are no rows.
pub open spec fn dims_of<F>(m: Seq<Seq<F>>) -> int {
    if m.len() == 0 {
        0
    } else {
        m[0].len() as int
    }
}

/// Rectangularity: every row has the width of the first.
pub open spec fn spec_is_matrix<F>(m: Seq<Seq<F>>) -> bool {
    forall|r: int| 0 <= r < m.len() ==> (#[trigger] m[r]).len() == dims_of(m)
}

/// The dot product of the first `k` entries of `a` and `b`,
/// accumulated in ascending index order.
pub open spec fn dot_k<F: Scalar>(a: Seq<F>, b: Seq<F>, k: nat) -> F
    decreases k,
{
    if k == 0 {
        F::spec_zero()
    } else {
        dot_k(a, b, (k - 1) as nat).spec_plus(a[k - 1].spec_times(b[k - 1]))
    }
}

/// The sum of the first `k` entries of `w`, in ascending index order.
pub open spec fn wsum_k<F: Scalar>(w: Seq<F>, k: nat) -> F
    decreases k,
{
    if k == 0 {
        F::spec_zero()
    } else {
        wsum_k(w, (k - 1) as nat).spec_plus(w[k - 1])
    }
}

/// The sum of column `c` over the first `k` rows of `data`.
pub open spec fn col_sum_k<F: Scalar>(data: Seq<Seq<F>>, c: int, k: nat) -> F
    decreases k,
{
    if k == 0 {
        F::spec_zero()
    } else {
        col_sum_k(data, c, (k - 1) as nat).spec_plus(data[k - 1][c])
    }
}

/// The weighted sum of column `c` over the first `k` rows of `data`.
pub open spec fn wcol_sum_k<F: Scalar>(data: Seq<Seq<F>>, w: Seq<F>, c: int, k: nat) -> F
    decreases k,
{
    if k == 0 {
        F::spec_zero()
    } else {
        wcol_sum_k(data, w, c, (k - 1) as nat).spec_plus(w[k - 1].spec_times(data[k - 1][c]))
    }
}

/// The sum over the first `k` rows of the product of the centered
/// columns `ci` and `cj` (centers `mi` and `mj`).
pub open spec fn cen_sum_k<F: Scalar>(
    data: Seq<Seq<F>>,
    ci: int,
    mi: F,
    cj: int,
    mj: F,
    k: nat,
) -> F
    decreases k,
{
    if k == 0 {
        F::spec_zero()
    } else {
        cen_sum_k(data, ci, mi, cj, mj, (k - 1) as nat).spec_plus(
            (data[k - 1][ci].spec_minus(mi)).spec_times(data[k - 1][cj].spec_minus(mj)),
        )
    }
}

/// The weighted sum over the first `k` rows of the product of the
/// centered columns `ci` and `cj`.
pub open spec fn wcen_sum_k<F: Scalar>(
    data: Seq<Seq<F>>,
    w: Seq<F>,
    ci: int,
    mi: F,
    cj: int,
    mj: F,
    k: nat,
) -> F
    decreases k,
{
    if k == 0 {
        F::spec_zero()
    } else {
        wcen_sum_k(data, w, ci, mi, cj, mj, (k - 1) as nat).spec_plus(
            w[k - 1].spec_times(data[k - 1][ci].spec_minus(mi)).spec_times(
                data[k - 1][cj].spec_minus(mj),
            ),
        )
    }
}

/// The product of the first `k` diagonal entries of `l`, starting
/// from the multiplicative identity.
pub open spec fn diag_prod_k<F: Scalar>(l: Seq<Seq<F>>, k: nat) -> F
    decreases k,
{
    if k == 0 {
        F::spec_one()
    } else {
        diag_prod_k(l, (k - 1) as nat).spec_times(l[k - 1][k - 1])
    }
}

/// Column selection: row `r` of the result holds the entries of row `r`
/// of `data` at the column indices listed in `keep`, in that order.
pub open spec fn spec_project<F>(data: Seq<Seq<F>>, keep: Seq<usize>) -> Seq<Seq<F>> {
    Seq::new(data.len(), |r: int| Seq::new(keep.len(), |c: int| data[r][keep[c] as int]))
}

/// Dot product of the first `k` entries of two vectors.
pub fn dot_prefix<F: Scalar>(a: &Vec<F>, b: &Vec<F>, k: usize) -> (r: F)
    requires
        k <= a@.len(),
        k <= b@.len(),
    ensures
        r == dot_k(a@, b@, k as nat),
{
    let mut acc: F = F::zero();
    let mut i: usize = 0;
    while i < k
        invariant
            i <= k,
            k <= a@.len(),
            k <= b@.len(),
            acc == dot_k(a@, b@, i as nat),
        decreases k - i,
    {
        acc = acc.plus(a[i].times(b[i]));
        i = i + 1;
    }
    acc
}

/// Sum of a vector's entries.
pub fn sum_vec<F: Scalar>(w: &Vec<F>) -> (r: F)
    ensures
        r == wsum_k(w@, w@.len() as nat),
{
    let mut acc: F = F::zero();
    let mut i: usize = 0;
    while i < w.len()
        invariant
            i <= w@.len(),
            acc == wsum_k(w@, i as nat),
        decreases w@.len() - i,
    {
        acc = acc.plus(w[i]);
        i = i + 1;
    }
    acc
}

/// Sum of one column of a matrix.
pub fn col_sum<F: Scalar>(data: &Vec<Vec<F>>, c: usize) -> (r: F)
    requires
        spec_is_matrix(mat_of(data@)),
        c < dims_of(mat_of(data@)),
    ensures
        r == col_sum_k(mat_of(data@), c as int, data@.len() as nat),
{
    let mut acc: F = F::zero();
    let mut i: usize = 0;
    while i < data.len()
        invariant
            i <= data@.len(),
            spec_is_matrix(mat_of(data@)),
            c < dims_of(mat_of(data@)),
            acc == col_sum_k(mat_of(data@), c as int, i as nat),
        decreases data@.len() - i,
    {
        assert(mat_of(data@)[i as int].len() == dims_of(mat_of(data@)));
        acc = acc.plus(data[i][c]);
        i = i + 1;
    }
    acc
}

/// Weighted sum of one column of a matrix.
pub fn wcol_sum<F: Scalar>(data: &Vec<Vec<F>>, w: &Vec<F>, c: usize) -> (r: F)
    requires
        spec_is_matrix(mat_of(data@)),
        c < dims_of(mat_of(data@)),
        w@.len() == data@.len(),
    ensures
        r == wcol_sum_k(mat_of(data@), w@, c as int, data@.len() as nat),
{
    let mut acc: F = F::zero();
    let mut i: usize = 0;
    while i < data.len()
        invariant
            i <= data@.len(),
            spec_is_matrix(mat_of(data@)),
            c < dims_of(mat_of(data@)),
            w@.len() == data@.len(),
            acc == wcol_sum_k(mat_of(data@), w@, c as int, i as nat),
        decreases data@.len() - i,
    {
        assert(mat_of(data@)[i as int].len() == dims_of(mat_of(data@)));
        acc = acc.plus(w[i].times(data[i][c]));
        i = i + 1;
    }
    acc
}

/// Sum of products of two centered columns.
pub fn cen_sum<F: Scalar>(data: &Vec<Vec<F>>, ci: usize, mi: F, cj: usize, mj: F) -> (r: F)
    requires
        spec_is_matrix(mat_of(data@)),
        ci < dims_of(mat_of(data@)),
        cj < dims_of(mat_of(data@)),
    ensures
        r == cen_sum_k(mat_of(data@), ci as int, mi, cj as int, mj, data@.len() as nat),
{
    let mut acc: F = F::zero();
    let mut i: usize = 0;
    while i < data.len()
        invariant
            i <= data@.len(),
            spec_is_matrix(mat_of(data@)),
            ci < dims_of(mat_of(data@)),
            cj < dims_of(mat_of(data@)),
            acc == cen_sum_k(mat_of(data@), ci as int, mi, cj as int, mj, i as nat),
        decreases data@.len() - i,
    {
        assert(mat_of(data@)[i as int].len() == dims_of(mat_of(data@)));
        acc = acc.plus((data[i][ci].minus(mi)).times(data[i][cj].minus(mj)));
        i = i + 1;
    }
    acc
}

/// Weighted sum of products of two centered columns.
pub fn wcen_sum<F: Scalar>(
    data: &Vec<Vec<F>>,
    w: &Vec<F>,
    ci: usize,
    mi: F,
    cj: usize,
    mj: F,
) -> (r: F)
    requires
        spec_is_matrix(mat_of(data@)),
        ci < dims_of(mat_of(data@)),
        cj < dims_of(mat_of(data@)),
        w@.len() == data@.len(),
    ensures
        r == wcen_sum_k(mat_of(data@), w@, ci as int, mi, cj as int, mj, data@.len() as nat),
{
    let mut acc: F = F::zero();
    let mut i: usize = 0;
    while i < data.len()
        invariant
            i <= data@.len(),
            spec_is_matrix(mat_of(data@)),
            ci < dims_of(mat_of(data@)),
            cj < dims_of(mat_of(data@)),
            w@.len() == data@.len(),
            acc == wcen_sum_k(mat_of(data@), w@, ci as int, mi, cj as int, mj, i as nat),
        decreases data@.len() - i,
    {
        assert(mat_of(data@)[i as int].len() == dims_of(mat_of(data@)));
        acc = acc.plus(w[i].times(data[i][ci].minus(mi)).times(data[i][cj].minus(mj)));
        i = i + 1;
    }
    acc
}

/// Product of the diagonal of a square matrix.
pub fn diag_prod<F: Scalar>(l: &Vec<Vec<F>>) -> (r: F)
    requires
        spec_is_matrix(mat_of(l@)),
        dims_of(mat_of(l@)) == l@.len(),
    ensures
        r == diag_prod_k(mat_of(l@), l@.len() as nat),
{
    let mut acc: F = F::one();
    let mut i: usize = 0;
    while i < l.len()
        invariant
            i <= l@.len(),
            spec_is_matrix(mat_of(l@)),
            dims_of(mat_of(l@)) == l@.len(),
            acc == diag_prod_k(mat_of(l@), i as nat),
        decreases l@.len() - i,
    {
        assert(mat_of(l@)[i as int].len() == dims_of(mat_of(l@)));
        acc = acc.times(l[i][i]);
        i = i + 1;
    }
    acc
}

/// An element-wise copy of a vector of scalars.
pub fn copy_vec<F: Scalar>(v: &Vec<F>) -> (r: Vec<F>)
    ensures
        r@ == v@,
{
    let mut out: Vec<F> = Vec::new();
    let mut i: usize = 0;
    while i < v.len()
        invariant
            i <= v@.len(),
            out@.len() == i,
            forall|j: int| 0 <= j < i ==> out@[j] == v@[j],
        decreases v@.len() - i,
    {
        out.push(v[i]);
        i = i + 1;
    }
    assert(out@ =~= v@);
    out
}

/// An element-wise copy of an optional weight vector.
pub fn copy_opt_vec<F: Scalar>(w: &Option<Vec<F>>) -> (r: Option<Vec<F>>)
    ensures
        opt_seq_of(r) == opt_seq_of(*w),
{
    match w {
        Option::Some(v) => Option::Some(copy_vec(v)),
        Option::None => Option::None,
    }
}

/// Select the columns listed in `keep`, in order, from every row.
pub fn project_cols<F: Scalar>(data: &Vec<Vec<F>>, keep: &Vec<usize>) -> (r: Vec<Vec<F>>)
    requires
        spec_is_matrix(mat_of(data@)),
        forall|t: int| 0 <= t < keep@.len() ==> (#[trigger] keep@[t]) < dims_of(mat_of(data@)),
    ensures
        mat_of(r@) == spec_project(mat_of(data@), keep@),
{
    let ghost target = spec_project(mat_of(data@), keep@);
    let mut out: Vec<Vec<F>> = Vec::new();
    let mut r: usize = 0;
    while r < data.len()
        invariant
            r <= data@.len(),
            out@.len() == r,
            spec_is_matrix(mat_of(data@)),
            forall|t: int| 0 <= t < keep@.len() ==> (#[trigger] keep@[t]) < dims_of(mat_of(data@)),
            target == spec_project(mat_of(data@), keep@),
            forall|p: int| 0 <= p < r ==> (#[trigger] out@[p])@ == target[p],
        decreases data@.len() - r,
    {
        let mut row: Vec<F> = Vec::new();
        let mut c: usize = 0;
        assert(mat_of(data@)[r as int].len() == dims_of(mat_of(data@)));
        while c < keep.len()
            invariant
                c <= keep@.len(),
                r < data@.len(),
                row@.len() == c,
                spec_is_matrix(mat_of(data@)),
                forall|t: int|
                    0 <= t < keep@.len() ==> (#[trigger] keep@[t]) < dims_of(mat_of(data@)),
                forall|q: int| 0 <= q < c ==> row@[q] == data@[r as int]@[keep@[q] as int],
            decreases keep@.len() - c,
        {
            assert(mat_of(data@)[r as int].len() == dims_of(mat_of(data@)));
            row.push(data[r][keep[c]]);
            c = c + 1;
        }
        assert(row@ =~= target[r as int]);
        out.push(row);
        r = r + 1;
    }
    assert(mat_of(out@) =~~= target);
    out
}

} // verus!

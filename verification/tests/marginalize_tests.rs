use gaussian_kde::scalar::Scalar;
use gaussian_kde::{ErrorKind, GaussianKDE, ScottBandwidth, SilvermanBandwidth};

#[derive(Clone, Copy, Debug, PartialEq)]
struct R(f64);

impl Scalar for R {
    fn spec_zero() -> R {
        R(0.0)
    }
    fn spec_one() -> R {
        R(1.0)
    }
    fn spec_from_usize(n: usize) -> R {
        R(n as f64)
    }
    fn spec_plus(self, o: R) -> R {
        R(self.0 + o.0)
    }
    fn spec_minus(self, o: R) -> R {
        R(self.0 - o.0)
    }
    fn spec_times(self, o: R) -> R {
        R(self.0 * o.0)
    }
    fn spec_divide(self, o: R) -> R {
        R(self.0 / o.0)
    }
    fn spec_negate(self) -> R {
        R(-self.0)
    }
    fn spec_recip(self) -> R {
        R(self.0.recip())
    }
    fn spec_sqrt(self) -> R {
        R(self.0.sqrt())
    }
    fn spec_exp(self) -> R {
        R(self.0.exp())
    }
    fn spec_powf(self, e: R) -> R {
        R(self.0.powf(e.0))
    }
    fn spec_powi(self, n: usize) -> R {
        R(self.0.powi(n as i32))
    }
    fn spec_pi() -> R {
        R(std::f64::consts::PI)
    }
    fn spec_leq(self, o: R) -> bool {
        self.0 <= o.0
    }
    fn zero() -> R {
        R(0.0)
    }
    fn one() -> R {
        R(1.0)
    }
    fn from_usize(n: usize) -> R {
        R(n as f64)
    }
    fn plus(self, o: R) -> R {
        R(self.0 + o.0)
    }
    fn minus(self, o: R) -> R {
        R(self.0 - o.0)
    }
    fn times(self, o: R) -> R {
        R(self.0 * o.0)
    }
    fn divide(self, o: R) -> R {
        R(self.0 / o.0)
    }
    fn negate(self) -> R {
        R(-self.0)
    }
    fn recip(self) -> R {
        R(self.0.recip())
    }
    fn sqrt(self) -> R {
        R(self.0.sqrt())
    }
    fn exp(self) -> R {
        R(self.0.exp())
    }
    fn powf(self, e: R) -> R {
        R(self.0.powf(e.0))
    }
    fn powi(self, n: usize) -> R {
        R(self.0.powi(n as i32))
    }
    fn pi() -> R {
        R(std::f64::consts::PI)
    }
    fn leq(self, o: R) -> bool {
        self.0 <= o.0
    }
}

fn mat(rows: &[&[f64]]) -> Vec<Vec<R>> {
    rows.iter().map(|r| r.iter().map(|&x| R(x)).collect()).collect()
}

fn expect_err<T>(r: Result<T, gaussian_kde::KDEError>) -> gaussian_kde::KDEError {
    match r {
        Err(e) => e,
        Ok(_) => panic!("expected an error"),
    }
}

fn vr(xs: &[f64]) -> Vec<R> {
    xs.iter().map(|&x| R(x)).collect()
}

fn data_3d() -> Vec<Vec<R>> {
    mat(&[
        &[4.778289487550605452e-01, 6.915810807566095120e-01, 8.973119595652500058e-01],
        &[8.092981665695588855e-01, 6.952206389245977336e-01, 8.867610462010474537e-01],
        &[4.016505747889576039e-01, 6.735560621931444558e-01, 6.015164821850446097e-01],
        &[6.183433169768373094e-01, 9.782506843349931813e-01, 8.643804075625444172e-01],
        &[8.470914298329793590e-01, 8.062118291413915561e-01, 7.143558061103683077e-01],
        &[4.336121335223386275e-01, 8.069600652351297532e-01, 9.589039393815833590e-01],
        &[3.374319617323934262e-01, 5.729598702618347028e-01, 8.259685606489839405e-01],
        &[9.510078434543683956e-01, 7.007529367689996347e-01, 1.796766943464989108e-02],
        &[2.938782386889049469e-02, 1.078441585862294216e-01, 5.370506790487759030e-01],
        &[4.110256667672318454e-02, 2.086942584603000972e-01, 6.946406596087403296e-01],
    ])
}

#[test]
fn index_error_on_out_of_range_dimension() {
    let kde = GaussianKDE::<R, ScottBandwidth>::new(data_3d(), None).unwrap();
    let err = expect_err(kde.marginalize(&vec![3]));
    assert_eq!(err.kind, ErrorKind::IndexError);
    let err = expect_err(kde.marginalize(&vec![0, 7]));
    assert_eq!(err.kind, ErrorKind::IndexError);
    let err = expect_err(kde.marginalize_to(&vec![1, 3]));
    assert_eq!(err.kind, ErrorKind::IndexError);
    let err = expect_err(kde.marginalize_to(&vec![100]));
    assert_eq!(err.kind, ErrorKind::IndexError);
}

#[test]
fn marginalize_drops_the_listed_columns() {
    let kde = GaussianKDE::<R, ScottBandwidth>::new(data_3d(), None).unwrap();
    let marg = kde.marginalize(&vec![1]).unwrap();
    let expected: Vec<Vec<R>> = data_3d()
        .iter()
        .map(|row| vec![row[0], row[2]])
        .collect();
    assert_eq!(marg.data(), &expected);
    let marg = kde.marginalize_to(&vec![0, 2]).unwrap();
    assert_eq!(marg.data(), &expected);
}

#[test]
fn complement_marginalizations_agree() {
    // Keeping dimensions [0, 2] and dropping their complement [1] refit
    // the builder on the same projected dataset, so the resulting models
    // have identical Cholesky factors, and identical densities.
    let kde = GaussianKDE::<R, ScottBandwidth>::new(data_3d(), None).unwrap();
    let kept = kde.marginalize_to(&vec![0, 2]).unwrap();
    let dropped = kde.marginalize(&vec![1]).unwrap();
    assert_eq!(kept.cholesky(), dropped.cholesky());
    assert_eq!(kept.data(), dropped.data());
    for p in [&[0.2, 0.4], &[0.5, 0.9], &[0.7, 0.1]] {
        let x = vr(p);
        assert_eq!(kept.eval(&x).0, dropped.eval(&x).0);
    }

    // The same with weights and the other bandwidth rule, keeping [1].
    let w = vr(&[0.5, 0.3, 0.6, 0.8, 0.1, 0.9, 0.2, 0.4, 0.7, 0.35]);
    let kde =
        GaussianKDE::<R, SilvermanBandwidth>::with_bandwidth(data_3d(), Some(w)).unwrap();
    let kept = kde.marginalize_to(&vec![1]).unwrap();
    let dropped = kde.marginalize(&vec![0, 2]).unwrap();
    assert_eq!(kept.cholesky(), dropped.cholesky());
    for x in [0.1, 0.6, 0.8] {
        assert_eq!(kept.eval(&vr(&[x])).0, dropped.eval(&vr(&[x])).0);
    }
}

#[test]
fn marginalized_model_keeps_weights() {
    let w = vr(&[0.5, 0.3, 0.6, 0.8, 0.1, 0.9, 0.2, 0.4, 0.7, 0.35]);
    let kde =
        GaussianKDE::<R, ScottBandwidth>::new(data_3d(), Some(w.clone())).unwrap();
    let marg = kde.marginalize(&vec![2]).unwrap();
    assert_eq!(marg.weights(), Some(&w));
}

use gaussian_kde::scalar::Scalar;
use gaussian_kde::{ErrorKind, GaussianKDE, KDEError, ScottBandwidth, SilvermanBandwidth};

#[derive(Clone, Copy, Debug, PartialEq)]
struct R(f64);

impl Scalar for R {
    fn spec_zero() -> R {
        R(0.0)
    }
    fn spec_one() -> R {
        R(1.0)
    }
    fn spec_from_usize(n: usize) -> R {
        R(n as f64)
    }
    fn spec_plus(self, o: R) -> R {
        R(self.0 + o.0)
    }
    fn spec_minus(self, o: R) -> R {
        R(self.0 - o.0)
    }
    fn spec_times(self, o: R) -> R {
        R(self.0 * o.0)
    }
    fn spec_divide(self, o: R) -> R {
        R(self.0 / o.0)
    }
    fn spec_negate(self) -> R {
        R(-self.0)
    }
    fn spec_recip(self) -> R {
        R(self.0.recip())
    }
    fn spec_sqrt(self) -> R {
        R(self.0.sqrt())
    }
    fn spec_exp(self) -> R {
        R(self.0.exp())
    }
    fn spec_powf(self, e: R) -> R {
        R(self.0.powf(e.0))
    }
    fn spec_powi(self, n: usize) -> R {
        R(self.0.powi(n as i32))
    }
    fn spec_pi() -> R {
        R(std::f64::consts::PI)
    }
    fn spec_leq(self, o: R) -> bool {
        self.0 <= o.0
    }
    fn zero() -> R {
        R(0.0)
    }
    fn one() -> R {
        R(1.0)
    }
    fn from_usize(n: usize) -> R {
        R(n as f64)
    }
    fn plus(self, o: R) -> R {
        R(self.0 + o.0)
    }
    fn minus(self, o: R) -> R {
        R(self.0 - o.0)
    }
    fn times(self, o: R) -> R {
        R(self.0 * o.0)
    }
    fn divide(self, o: R) -> R {
        R(self.0 / o.0)
    }
    fn negate(self) -> R {
        R(-self.0)
    }
    fn recip(self) -> R {
        R(self.0.recip())
    }
    fn sqrt(self) -> R {
        R(self.0.sqrt())
    }
    fn exp(self) -> R {
        R(self.0.exp())
    }
    fn powf(self, e: R) -> R {
        R(self.0.powf(e.0))
    }
    fn powi(self, n: usize) -> R {
        R(self.0.powi(n as i32))
    }
    fn pi() -> R {
        R(std::f64::consts::PI)
    }
    fn leq(self, o: R) -> bool {
        self.0 <= o.0
    }
}

fn mat(rows: &[&[f64]]) -> Vec<Vec<R>> {
    rows.iter().map(|r| r.iter().map(|&x| R(x)).collect()).collect()
}

fn expect_err<T>(r: Result<T, gaussian_kde::KDEError>) -> gaussian_kde::KDEError {
    match r {
        Err(e) => e,
        Ok(_) => panic!("expected an error"),
    }
}

fn vr(xs: &[f64]) -> Vec<R> {
    xs.iter().map(|&x| R(x)).collect()
}

#[test]
fn shape_error_on_weight_count_mismatch() {
    let data = mat(&[&[0.1], &[0.4], &[0.9]]);
    let err = expect_err(GaussianKDE::<R, ScottBandwidth>::new(data, Some(vr(&[0.5, 0.5]))));
    assert_eq!(err.kind, ErrorKind::ShapeError);

    let data = mat(&[&[0.1, 0.2], &[0.4, 0.3], &[0.9, 0.1]]);
    let err = expect_err(GaussianKDE::<R, SilvermanBandwidth>::with_bandwidth(
        data,
        Some(vr(&[0.5, 0.5, 0.5, 0.5])),
    ));
    assert_eq!(err.kind, ErrorKind::ShapeError);
}

#[test]
fn singularity_error_when_fewer_points_than_dimensions() {
    let data = mat(&[&[0.1, 0.2, 0.3], &[0.4, 0.5, 0.6]]);
    let err = expect_err(GaussianKDE::<R, ScottBandwidth>::new(data, None));
    assert_eq!(err.kind, ErrorKind::SingularityError);

    let data = mat(&[&[1.0, 2.0]]);
    let err = expect_err(GaussianKDE::<R, SilvermanBandwidth>::with_bandwidth(data, None));
    assert_eq!(err.kind, ErrorKind::SingularityError);
}

#[test]
fn singularity_error_on_degenerate_data() {
    // Perfectly collinear two-dimensional points: the covariance is
    // rank-deficient and the factorization must reject it.
    let data = mat(&[&[0.0, 0.0], &[1.0, 1.0], &[2.0, 2.0], &[3.0, 3.0]]);
    let err = expect_err(GaussianKDE::<R, ScottBandwidth>::new(data, None));
    assert_eq!(err.kind, ErrorKind::SingularityError);
}

#[test]
fn accessors_return_the_construction_inputs() {
    let data = mat(&[&[0.1, 0.9], &[0.4, 0.3], &[0.9, 0.1], &[0.2, 0.8]]);
    let weights = vr(&[0.25, 0.25, 0.3, 0.2]);
    let kde =
        GaussianKDE::<R, ScottBandwidth>::new(data.clone(), Some(weights.clone())).unwrap();
    assert_eq!(kde.data(), &data);
    assert_eq!(kde.weights(), Some(&weights));
    let l = kde.cholesky();
    assert_eq!(l.len(), 2);
    assert_eq!(l[0].len(), 2);
    // The factor is lower-triangular with a strictly positive diagonal.
    assert_eq!(l[0][1].0, 0.0);
    assert!(l[0][0].0 > 0.0);
    assert!(l[1][1].0 > 0.0);

    let kde = GaussianKDE::<R, ScottBandwidth>::new(data.clone(), None).unwrap();
    assert_eq!(kde.weights(), None);
}

#[test]
fn error_kind_describe_names_the_class() {
    assert_eq!(ErrorKind::ShapeError.describe(), "ShapeError");
    assert_eq!(ErrorKind::IndexError.describe(), "IndexError");
    assert_eq!(ErrorKind::SingularityError.describe(), "SingularityError");
    let e = KDEError::new(ErrorKind::IndexError, String::from("out of range"));
    assert_eq!(e.kind, ErrorKind::IndexError);
    assert_eq!(e.message, "out of range");
    assert_eq!(e.describe(), "IndexError: out of range");
}

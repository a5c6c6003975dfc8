use gaussian_kde::scalar::Scalar;
use gaussian_kde::{GaussianKDE, ScottBandwidth};

#[derive(Clone, Copy, Debug, PartialEq)]
struct R(f64);

impl Scalar for R {
    fn spec_zero() -> R {
        R(0.0)
    }
    fn spec_one() -> R {
        R(1.0)
    }
    fn spec_from_usize(n: usize) -> R {
        R(n as f64)
    }
    fn spec_plus(self, o: R) -> R {
        R(self.0 + o.0)
    }
    fn spec_minus(self, o: R) -> R {
        R(self.0 - o.0)
    }
    fn spec_times(self, o: R) -> R {
        R(self.0 * o.0)
    }
    fn spec_divide(self, o: R) -> R {
        R(self.0 / o.0)
    }
    fn spec_negate(self) -> R {
        R(-self.0)
    }
    fn spec_recip(self) -> R {
        R(self.0.recip())
    }
    fn spec_sqrt(self) -> R {
        R(self.0.sqrt())
    }
    fn spec_exp(self) -> R {
        R(self.0.exp())
    }
    fn spec_powf(self, e: R) -> R {
        R(self.0.powf(e.0))
    }
    fn spec_powi(self, n: usize) -> R {
        R(self.0.powi(n as i32))
    }
    fn spec_pi() -> R {
        R(std::f64::consts::PI)
    }
    fn spec_leq(self, o: R) -> bool {
        self.0 <= o.0
    }
    fn zero() -> R {
        R(0.0)
    }
    fn one() -> R {
        R(1.0)
    }
    fn from_usize(n: usize) -> R {
        R(n as f64)
    }
    fn plus(self, o: R) -> R {
        R(self.0 + o.0)
    }
    fn minus(self, o: R) -> R {
        R(self.0 - o.0)
    }
    fn times(self, o: R) -> R {
        R(self.0 * o.0)
    }
    fn divide(self, o: R) -> R {
        R(self.0 / o.0)
    }
    fn negate(self) -> R {
        R(-self.0)
    }
    fn recip(self) -> R {
        R(self.0.recip())
    }
    fn sqrt(self) -> R {
        R(self.0.sqrt())
    }
    fn exp(self) -> R {
        R(self.0.exp())
    }
    fn powf(self, e: R) -> R {
        R(self.0.powf(e.0))
    }
    fn powi(self, n: usize) -> R {
        R(self.0.powi(n as i32))
    }
    fn pi() -> R {
        R(std::f64::consts::PI)
    }
    fn leq(self, o: R) -> bool {
        self.0 <= o.0
    }
}

fn mat(rows: &[&[f64]]) -> Vec<Vec<R>> {
    rows.iter().map(|r| r.iter().map(|&x| R(x)).collect()).collect()
}

fn vr(xs: &[f64]) -> Vec<R> {
    xs.iter().map(|&x| R(x)).collect()
}

fn assert_close(a: f64, b: f64, eps: f64) {
    assert!((a - b).abs() <= eps, "{} vs {}", a, b);
}

fn data_1d() -> Vec<Vec<R>> {
    mat(&[&[0.5634880436705391], &[0.445981611845074], &[0.7438671296401687]])
}

fn weights_1d() -> Vec<R> {
    vr(&[0.04622972052712859, 0.15162404870472723, 0.291517199926956])
}

fn data_3d() -> Vec<Vec<R>> {
    mat(&[
        &[4.778289487550605452e-01, 6.915810807566095120e-01, 8.973119595652500058e-01],
        &[8.092981665695588855e-01, 6.952206389245977336e-01, 8.867610462010474537e-01],
        &[4.016505747889576039e-01, 6.735560621931444558e-01, 6.015164821850446097e-01],
        &[6.183433169768373094e-01, 9.782506843349931813e-01, 8.643804075625444172e-01],
        &[8.470914298329793590e-01, 8.062118291413915561e-01, 7.143558061103683077e-01],
        &[4.336121335223386275e-01, 8.069600652351297532e-01, 9.589039393815833590e-01],
        &[3.374319617323934262e-01, 5.729598702618347028e-01, 8.259685606489839405e-01],
        &[9.510078434543683956e-01, 7.007529367689996347e-01, 1.796766943464989108e-02],
        &[2.938782386889049469e-02, 1.078441585862294216e-01, 5.370506790487759030e-01],
        &[4.110256667672318454e-02, 2.086942584603000972e-01, 6.946406596087403296e-01],
    ])
}

fn weights_3d() -> Vec<R> {
    vr(&[
        4.545965000176888093e-01,
        6.656013082343981146e-03,
        4.089870211211721340e-01,
        8.170516288204880961e-01,
        7.990649716826044857e-01,
        2.787743020513939740e-01,
        7.606137013085603193e-01,
        6.238816644921463261e-02,
        8.113067447451907110e-01,
        6.972756025050139694e-01,
    ])
}

#[test]
fn eval_1d_test() {
    let kde = GaussianKDE::<R, ScottBandwidth>::new(data_1d(), None).unwrap();
    assert_close(kde.eval(&vr(&[0.3])).0, 0.6318104956149939, 1E-10);
    let kde = GaussianKDE::<R, ScottBandwidth>::new(data_1d(), Some(weights_1d())).unwrap();
    assert_close(kde.eval(&vr(&[0.3])).0, 0.6002942112023868, 1E-10);
}

#[test]
fn eval_3d_test() {
    let x_test = vr(&[
        4.184559795606306309e-01,
        1.755027879973122262e-01,
        9.086181878876633533e-01,
    ]);
    let kde = GaussianKDE::<R, ScottBandwidth>::new(data_3d(), None).unwrap();
    assert_close(kde.eval(&x_test).0, 0.012985562962085305, 1E-10);
    let kde = GaussianKDE::<R, ScottBandwidth>::new(data_3d(), Some(weights_3d())).unwrap();
    assert_close(kde.eval(&x_test).0, 0.00019416613783346587, 1E-10);
}

#[test]
fn eval_batch_matches_eval() {
    let queries = mat(&[
        &[0.1, 0.2, 0.3],
        &[0.5, 0.5, 0.5],
        &[4.184559795606306309e-01, 1.755027879973122262e-01, 9.086181878876633533e-01],
        &[-1.0, 2.0, 0.0],
    ]);
    let kde = GaussianKDE::<R, ScottBandwidth>::new(data_3d(), None).unwrap();
    let batch = kde.eval_batch(&queries);
    assert_eq!(batch.len(), queries.len());
    for (q, b) in queries.iter().zip(batch.iter()) {
        assert_eq!(kde.eval(q).0, b.0);
    }
    let kde = GaussianKDE::<R, ScottBandwidth>::new(data_3d(), Some(weights_3d())).unwrap();
    let batch = kde.eval_batch(&queries);
    for (q, b) in queries.iter().zip(batch.iter()) {
        assert_eq!(kde.eval(q).0, b.0);
    }
}

#[test]
fn eval_is_positive_at_finite_points() {
    let kde = GaussianKDE::<R, ScottBandwidth>::new(data_3d(), None).unwrap();
    let points = mat(&[
        &[0.0, 0.0, 0.0],
        &[1.0, 1.0, 1.0],
        &[0.3, 0.8, 0.6],
        &[0.5, 0.5, 0.5],
    ]);
    for p in points.iter() {
        assert!(kde.eval(p).0 > 0.0);
    }
    let kde = GaussianKDE::<R, ScottBandwidth>::new(data_1d(), Some(weights_1d())).unwrap();
    for x in [-2.0, -0.5, 0.0, 0.3, 1.0, 4.0] {
        assert!(kde.eval(&vr(&[x])).0 > 0.0);
    }
}

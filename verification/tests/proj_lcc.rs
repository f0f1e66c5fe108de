//! Numeric tests of the Lambert Conformal Conic projection and the composed
//! reprojection pipeline. The floating-point formulas live here, outside the
//! library; every branch they take is decided by the library's verified
//! projection logic.

use proj4rs::{
    find_projection, lcc, transform, Coord, Error, GeographicStep, MultiPoint, Phi2Iter, Phi2Step,
    Point, ProjectionKind, Transform, TransformClosure,
};

const EPS_10: f64 = 1.0e-10;
const FRAC_PI_2: f64 = std::f64::consts::FRAC_PI_2;
const FRAC_PI_4: f64 = std::f64::consts::FRAC_PI_4;

struct Ellps {
    a: f64,
    es: f64,
    e: f64,
    ra: f64,
}

fn grs80() -> Ellps {
    let a = 6378137.0;
    let rf = 298.257222101;
    let f = 1.0 / rf;
    let es = 2.0 * f - f * f;
    Ellps {
        a,
        es,
        e: es.sqrt(),
        ra: 1.0 / a,
    }
}

fn msfn(sinphi: f64, cosphi: f64, es: f64) -> f64 {
    cosphi / (1.0 - es * sinphi * sinphi).sqrt()
}

fn tsfn(phi: f64, sinphi: f64, e: f64) -> f64 {
    let sinphi = sinphi * e;
    (0.5 * (FRAC_PI_2 - phi)).tan() / ((1.0 - sinphi) / (1.0 + sinphi)).powf(0.5 * e)
}

/// Newton iteration for the inverse isometric latitude; the iteration budget
/// and the non-convergence error are the library's.
fn phi2(ts: f64, e: f64) -> Result<f64, Error> {
    let eccnth = 0.5 * e;
    let mut phi = FRAC_PI_2 - 2.0 * ts.atan();
    let mut it = Phi2Iter::new();
    loop {
        let con = e * phi.sin();
        let dphi = FRAC_PI_2 - 2.0 * (ts * ((1.0 - con) / (1.0 + con)).powf(eccnth)).atan() - phi;
        phi += dphi;
        match it.step(dphi.abs() <= 1.0e-10)? {
            Phi2Step::Converged => return Ok(phi),
            Phi2Step::Continue => {}
        }
    }
}

struct PData {
    phi0: Option<f64>,
    k0: f64,
}

struct Params {
    lat_1: Option<f64>,
    lat_2: Option<f64>,
}

struct LccProj {
    proj: lcc::Projection,
    n: f64,
    rho0: f64,
    c: f64,
    e: f64,
    k0: f64,
}

fn lcc_init(p: &mut PData, params: &Params, el: &Ellps) -> Result<LccProj, Error> {
    let phi1 = params.lat_1.unwrap_or(0.0);
    let lat2_given = params.lat_2.is_some();
    let phi2v = params.lat_2.unwrap_or(phi1);

    let mut pd = lcc::ProjData {
        phi0_set: p.phi0.is_some(),
    };
    // Seed the reference latitude as the library's init contract says.
    if !lat2_given {
        p.phi0 = p.phi0.or(Some(phi1));
    }
    let phi0 = p.phi0.unwrap_or(0.0);

    // The decisions are the library's; the arithmetic observed by them
    // happens here, with the engine's one shared tolerance.
    let inputs = lcc::InitInputs {
        lat2_given,
        sum_within_tol: (phi1 + phi2v).abs() < EPS_10,
        diff_within_tol: (phi1 - phi2v).abs() < EPS_10,
        es_nonzero: el.es != 0.0,
        phi0_near_pole: (phi0.abs() - FRAC_PI_2).abs() < EPS_10,
    };
    let proj = lcc::Projection::init(&mut pd, inputs)?;

    let sinphi = phi1.sin();
    let cosphi = phi1.cos();
    let (n, c, rho0);
    if proj.ellips {
        let m1 = msfn(sinphi, cosphi, el.es);
        let ml1 = tsfn(phi1, sinphi, el.e);
        n = if proj.secant {
            let sinphi2 = phi2v.sin();
            (m1 / msfn(sinphi2, phi2v.cos(), el.es)).ln()
                / (ml1 / tsfn(phi2v, sinphi2, el.e)).ln()
        } else {
            sinphi
        };
        c = m1 * ml1.powf(-n) / n;
        rho0 = if proj.rho0_zero {
            0.0
        } else {
            c * tsfn(phi0, phi0.sin(), el.e).powf(n)
        };
    } else {
        n = if proj.secant {
            (cosphi / phi2v.cos()).ln()
                / ((FRAC_PI_4 + 0.5 * phi2v).tan() / (FRAC_PI_4 + 0.5 * phi1).tan()).ln()
        } else {
            sinphi
        };
        c = cosphi * (FRAC_PI_4 + 0.5 * phi1).tan().powf(n) / n;
        rho0 = if proj.rho0_zero {
            0.0
        } else {
            c * (FRAC_PI_4 + 0.5 * phi0).tan().powf(-n)
        };
    }

    Ok(LccProj {
        proj,
        n,
        rho0,
        c,
        e: el.e,
        k0: p.k0,
    })
}

fn lcc_forward(pr: &LccProj, lam: f64, phi: f64, z: f64) -> Result<(f64, f64, f64), Error> {
    let phi_near_pole = (phi.abs() - FRAC_PI_2).abs() < EPS_10;
    let phi_n_nonpos = phi * pr.n <= 0.0;
    let rho = match pr.proj.forward(phi_near_pole, phi_n_nonpos)? {
        lcc::ForwardCase::PoleRho => 0.0,
        lcc::ForwardCase::EllipsoidalRho => pr.c * tsfn(phi, phi.sin(), pr.e).powf(pr.n),
        lcc::ForwardCase::SphericalRho => pr.c * (FRAC_PI_4 + 0.5 * phi).tan().powf(-pr.n),
    };
    let lam = lam * pr.n;
    Ok((
        pr.k0 * (rho * lam.sin()),
        pr.k0 * (pr.rho0 - rho * lam.cos()),
        z,
    ))
}

fn lcc_inverse(pr: &LccProj, x: f64, y: f64, z: f64) -> Result<(f64, f64, f64), Error> {
    let mut x = x / pr.k0;
    let mut y = pr.rho0 - y / pr.k0;
    let mut rho = x.hypot(y);
    match pr.proj.inverse(rho != 0.0, pr.n < 0.0, pr.n > 0.0) {
        lcc::InverseCase::Pole { north } => {
            Ok((0.0, if north { FRAC_PI_2 } else { -FRAC_PI_2 }, z))
        }
        lcc::InverseCase::General { negate, ellipsoidal } => {
            if negate {
                rho = -rho;
                x = -x;
                y = -y;
            }
            let phi = if ellipsoidal {
                phi2((rho / pr.c).powf(1.0 / pr.n), pr.e)?
            } else {
                2.0 * (pr.c / rho).powf(1.0 / pr.n).atan() - FRAC_PI_2
            };
            Ok((x.atan2(y) / pr.n, phi, z))
        }
    }
}

/// A projection resolved from a parameter string: the registry entry, the
/// ellipsoid, and for the conic the initialized instance.
struct Proj {
    kind: ProjectionKind,
    ellps: Ellps,
    lcc: Option<LccProj>,
}

fn parse_pairs(s: &str) -> Vec<(String, String)> {
    s.split_whitespace()
        .filter_map(|tok| {
            let tok = tok.strip_prefix('+')?;
            match tok.split_once('=') {
                Some((k, v)) => Some((k.to_string(), v.to_string())),
                None => Some((tok.to_string(), String::new())),
            }
        })
        .collect()
}

fn from_proj_string(s: &str) -> Result<Proj, Error> {
    let pairs = parse_pairs(s);
    let lookup = |key: &str| -> Option<&str> {
        pairs
            .iter()
            .find(|(k, _)| k == key)
            .map(|(_, v)| v.as_str())
    };
    let name = lookup("proj").ok_or(Error::MissingProjectionError)?;
    let kind = find_projection(name)?;
    let ellps = match lookup("ellps") {
        Some("GRS80") => grs80(),
        Some(_) => return Err(Error::InvalidEllipsoid),
        None => grs80(),
    };
    let angular = |key: &str| lookup(key).and_then(|v| v.parse::<f64>().ok().map(f64::to_radians));
    let lcc = match kind {
        ProjectionKind::Lcc => {
            let mut p = PData { phi0: None, k0: 1.0 };
            let params = Params {
                lat_1: angular("lat_1"),
                lat_2: angular("lat_2"),
            };
            Some(lcc_init(&mut p, &params, &ellps)?)
        }
        ProjectionKind::Latlong => None,
    };
    Ok(Proj { kind, ellps, lcc })
}

/// The destination side of the pipeline: conic forward, scaled by the
/// semi-major axis.
struct LccForwardStep {
    pr: LccProj,
    a: f64,
}

impl TransformClosure<f64> for LccForwardStep {
    // The ghost companions of the closure's contract, compiled to ordinary
    // trait items: stated here as the transform itself.
    fn succeeds(&self, x: f64, y: f64) -> bool {
        self.transform(x, y).is_ok()
    }

    fn image(&self, x: f64, y: f64) -> (f64, f64) {
        self.transform(x, y).unwrap_or((x, y))
    }

    fn failure(&self, x: f64, y: f64) -> Error {
        self.transform(x, y).err().unwrap_or(Error::CoordinateOutOfRange)
    }

    fn transform(&self, x: f64, y: f64) -> Result<(f64, f64), Error> {
        let (fx, fy, _) = lcc_forward(&self.pr, x, y, 0.0)?;
        Ok((fx * self.a, fy * self.a))
    }
}

fn scale(a: f64, xyz: (f64, f64, f64)) -> (f64, f64, f64) {
    (xyz.0 * a, xyz.1 * a, xyz.2)
}

fn to_deg(lpz: (f64, f64, f64)) -> (f64, f64, f64) {
    (lpz.0.to_degrees(), lpz.1.to_degrees(), lpz.2)
}

fn to_rad(lpz: (f64, f64, f64)) -> (f64, f64, f64) {
    (lpz.0.to_radians(), lpz.1.to_radians(), lpz.2)
}

#[test]
fn proj_lcc_forward() {
    let p = from_proj_string("+proj=lcc   +ellps=GRS80  +lat_1=0.5 +lat_2=2").unwrap();
    let pr = p.lcc.as_ref().unwrap();

    let (lam, phi, _) = to_rad((2., 1., 0.));

    let out = scale(p.ellps.a, lcc_forward(pr, lam, phi, 0.).unwrap());
    assert_eq!(out, (222588.439735968423, 110660.533870799671, 0.));
}

#[test]
fn proj_lcc_inverse() {
    let p = from_proj_string("+proj=lcc   +ellps=GRS80  +lat_1=0.5 +lat_2=2").unwrap();
    let pr = p.lcc.as_ref().unwrap();

    let ra = p.ellps.ra;
    // Descale
    let (x, y) = (222588.439735968423 * ra, 110660.533870799671 * ra);

    let out = to_deg(lcc_inverse(pr, x, y, 0.).unwrap());
    assert!((out.0 - 2.).abs() < EPS_10);
    assert!((out.1 - 1.).abs() < EPS_10);
}

#[test]
fn proj_lcc_latlon_to_lcc() {
    let p_from = from_proj_string("+proj=latlon +ellps=GRS80").unwrap();
    let p_to = from_proj_string("+proj=lcc +ellps=GRS80 +lat_1=0.5 +lat_2=2").unwrap();

    let (lon_in, lat_in) = (2.0f64.to_radians(), 1.0f64.to_radians());

    let src = match p_from.kind {
        ProjectionKind::Latlong => GeographicStep,
        ProjectionKind::Lcc => panic!("source must be geographic here"),
    };
    let step = LccForwardStep {
        pr: p_to.lcc.unwrap(),
        a: p_to.ellps.a,
    };
    let mut coord = Coord { x: lon_in, y: lat_in };
    transform(src, step, &mut coord).unwrap();
    assert_eq!((coord.x, coord.y), (222588.439735968423, 110660.533870799671));
}

/// Round trip: inverse after forward restores the input within 1e-10 radians
/// across the projection's valid domain.
#[test]
fn lcc_round_trip() {
    let p = from_proj_string("+proj=lcc +ellps=GRS80 +lat_1=0.5 +lat_2=2").unwrap();
    let pr = p.lcc.as_ref().unwrap();
    let cases = [
        (2.0, 1.0),
        (-10.0, 45.0),
        (25.0, -30.0),
        (0.25, 0.75),
        (179.0, 80.0),
    ];
    for (lon_deg, lat_deg) in cases {
        let (lam, phi) = (f64::to_radians(lon_deg), f64::to_radians(lat_deg));
        let (x, y, z) = lcc_forward(pr, lam, phi, 7.0).unwrap();
        let (lam2, phi2, z2) = lcc_inverse(pr, x, y, z).unwrap();
        assert!((lam2 - lam).abs() < EPS_10);
        assert!((phi2 - phi).abs() < EPS_10);
        assert_eq!(z2, 7.0);
    }
}

/// The pole matching the cone's orientation maps to the pole point; the
/// inverse maps it back.
#[test]
fn lcc_matching_pole() {
    let p = from_proj_string("+proj=lcc +ellps=GRS80 +lat_1=0.5 +lat_2=2").unwrap();
    let pr = p.lcc.as_ref().unwrap();
    // Cone opens northward: n > 0.
    assert!(pr.n > 0.0);
    let (x, y, _) = lcc_forward(pr, 0.3, FRAC_PI_2, 0.0).unwrap();
    let (lam, phi, _) = lcc_inverse(pr, x, y, 0.0).unwrap();
    assert_eq!(lam, 0.0);
    assert_eq!(phi, FRAC_PI_2);
}

/// The pole on the wrong side of the cone is the tolerance-condition error.
#[test]
fn lcc_opposite_pole_fails() {
    let p = from_proj_string("+proj=lcc +ellps=GRS80 +lat_1=0.5 +lat_2=2").unwrap();
    let pr = p.lcc.as_ref().unwrap();
    let r = lcc_forward(pr, 0.0, -FRAC_PI_2, 0.0);
    assert_eq!(r.unwrap_err(), Error::ToleranceConditionError);
}

/// Standard parallels equal and opposite fail initialization with the
/// dedicated error.
#[test]
fn lcc_degenerate_parallels() {
    let r = from_proj_string("+proj=lcc +ellps=GRS80 +lat_1=30 +lat_2=-30");
    assert_eq!(r.err().unwrap(), Error::ProjErrConicLatEqual);
}

/// Omitting the second standard parallel behaves as the tangent case with
/// the reference latitude defaulted to the first standard parallel.
#[test]
fn lcc_defaulted_second_parallel() {
    let tangent = from_proj_string("+proj=lcc +ellps=GRS80 +lat_1=30").unwrap();
    let pr = tangent.lcc.as_ref().unwrap();
    assert!(!pr.proj.secant);
    // The seeded reference latitude equals the first standard parallel, so
    // the derived constants match an explicit tangent-case setup.
    let (lam, phi) = (2.0f64.to_radians(), 31.0f64.to_radians());
    let out = lcc_forward(pr, lam, phi, 0.0).unwrap();
    let mut p = PData {
        phi0: Some(30.0f64.to_radians()),
        k0: 1.0,
    };
    let params = Params {
        lat_1: Some(30.0f64.to_radians()),
        lat_2: Some(30.0f64.to_radians()),
    };
    let pr2 = lcc_init(&mut p, &params, &grs80()).unwrap();
    assert!(!pr2.proj.secant);
    let out2 = lcc_forward(&pr2, lam, phi, 0.0).unwrap();
    assert_eq!(out, out2);
}

/// Iterative inverse convergence: the inverse isometric latitude restores
/// the latitude within 1e-12 across the analytic domain, and a pathological
/// input yields the convergence error rather than looping unbounded.
#[test]
fn phi2_convergence() {
    let el = grs80();
    for lat_deg in [-85.0, -60.0, -30.0, -1.0, 0.0, 0.5, 2.0, 45.0, 60.0, 85.0] {
        let phi = f64::to_radians(lat_deg);
        let ts = tsfn(phi, phi.sin(), el.e);
        let back = phi2(ts, el.e).unwrap();
        assert!((back - phi).abs() < 1.0e-12);
    }
    let r = phi2(f64::NAN, el.e);
    assert_eq!(r.unwrap_err(), Error::NonInvPhi2Convergence);
}

/// Pipeline across geometry shapes: a collection of identical inputs yields
/// identical outputs, each equal to the single-coordinate result.
#[test]
fn pipeline_multi_point_identical() {
    let p_to = from_proj_string("+proj=lcc +ellps=GRS80 +lat_1=0.5 +lat_2=2").unwrap();
    let a = p_to.ellps.a;
    let step = LccForwardStep {
        pr: p_to.lcc.unwrap(),
        a,
    };
    let coord = Coord {
        x: 2.0f64.to_radians(),
        y: 1.0f64.to_radians(),
    };

    let mut single = coord;
    let sr = single.transform_coordinates(&mut proj4rs::Pipeline {
        src_step: GeographicStep,
        dst_step: step,
    });
    sr.unwrap();

    let p_to = from_proj_string("+proj=lcc +ellps=GRS80 +lat_1=0.5 +lat_2=2").unwrap();
    let step = LccForwardStep {
        pr: p_to.lcc.unwrap(),
        a,
    };
    let mut mp = MultiPoint((0..10).map(|_| Point(coord)).collect());
    transform(GeographicStep, step, &mut mp).unwrap();
    assert_eq!(mp.0.len(), 10);
    for point in &mp.0 {
        assert_eq!((point.0.x, point.0.y), (single.x, single.y));
        assert_eq!((point.0.x, point.0.y), (222588.439735968423, 110660.533870799671));
    }
}

/// Fail-fast traversal: one coordinate triggering the tolerance-condition
/// failure among valid ones aborts the whole batch with that error; the
/// leaves before it stay transformed, the rest stay untouched.
#[test]
fn pipeline_fail_fast() {
    let p_to = from_proj_string("+proj=lcc +ellps=GRS80 +lat_1=0.5 +lat_2=2").unwrap();
    let step = LccForwardStep {
        pr: p_to.lcc.unwrap(),
        a: p_to.ellps.a,
    };
    let good = Coord {
        x: 2.0f64.to_radians(),
        y: 1.0f64.to_radians(),
    };
    // A pole point whose sign disagrees with the cone orientation.
    let bad = Coord {
        x: 0.0,
        y: -FRAC_PI_2,
    };
    let mut mp = MultiPoint(vec![Point(good), Point(bad), Point(good)]);
    let r = transform(GeographicStep, step, &mut mp);
    assert_eq!(r.unwrap_err(), Error::ToleranceConditionError);
    // The leaf before the failing one is transformed, the rest untouched.
    assert_eq!(
        (mp.0[0].0.x, mp.0[0].0.y),
        (222588.439735968423, 110660.533870799671)
    );
    assert_eq!((mp.0[1].0.x, mp.0[1].0.y), (bad.x, bad.y));
    assert_eq!((mp.0[2].0.x, mp.0[2].0.y), (good.x, good.y));
}

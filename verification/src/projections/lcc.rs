//! Lambert Conformal Conic: the decision structure of initialization and of
//! the forward and inverse mappings.
//!
//! Parameters:
//!
//! proj: lcc
//!
//! lat_0: the reference latitude
//! lon_0: the reference longitude
//! lat_1: first standard parallel
//! lat_2: second standard parallel
//! x_0: x offset in meters
//! y_0: y offset in meters
//!
//! The numeric work — trigonometry, the isometric-latitude transform, the
//! cone constant — happens outside this crate; every branch it takes is
//! decided here, from the observed outcomes of the tolerance comparisons,
//! and each derived constant is selected by the returned cases. All
//! "near-pole" and "near-zero" comparisons observed here use the one shared
//! tolerance of the engine.

use vstd::prelude::*;

use crate::errors::Error;

verus! {

/// The mutable staging record one initializer invocation populates: whether
/// the shared reference latitude has been supplied yet.
#[derive(Debug, Clone, Copy, PartialEq, Eq, Structural)]
pub struct ProjData {
    pub phi0_set: bool,
}

/// The observed outcomes of the parameter reads and tolerance comparisons
/// that initialization decides on, after the second standard parallel has
/// been defaulted: `sum_within_tol` is whether `|lat_1 + lat_2|` lies within
/// tolerance, `diff_within_tol` the same of `|lat_1 - lat_2|`,
/// `phi0_near_pole` whether the reference latitude lies within tolerance of
/// a pole, and `es_nonzero` whether the ellipsoid's squared eccentricity is
/// nonzero.
#[derive(Debug, Clone, Copy, PartialEq, Eq, Structural)]
pub struct InitInputs {
    pub lat2_given: bool,
    pub sum_within_tol: bool,
    pub diff_within_tol: bool,
    pub es_nonzero: bool,
    pub phi0_near_pole: bool,
}

/// An initialized conic projection: the branch selectors frozen at
/// construction, never recomputed per call.
#[derive(Debug, Clone, Copy, PartialEq, Eq, Structural)]
pub struct Projection {
    /// Ellipsoidal rather than spherical closed forms.
    pub ellips: bool,
    /// Two distinct standard parallels (secant cone) rather than one
    /// effective parallel (tangent cone).
    pub secant: bool,
    /// The reference latitude lies at the pole the cone opens around, making
    /// the reference radius exactly zero.
    pub rho0_zero: bool,
}

/// How the polar radius `rho` of the forward mapping is obtained.
#[derive(Debug, Clone, Copy, PartialEq, Eq, Structural)]
pub enum ForwardCase {
    /// The input is the pole the cone opens around: `rho` is exactly zero.
    PoleRho,
    /// `rho` comes from the isometric-latitude transform raised to the cone
    /// constant.
    EllipsoidalRho,
    /// `rho` comes from the spherical half-angle tangent formula.
    SphericalRho,
}

/// How the inverse mapping recovers the latitude.
#[derive(Debug, Clone, Copy, PartialEq, Eq, Structural)]
pub enum InverseCase {
    /// The polar radius is exactly zero: longitude is zero and the latitude
    /// is the pole whose sign matches the cone constant's sign.
    Pole { north: bool },
    /// Elsewhere: with a negative cone constant, `rho`, `x` and `y` are
    /// negated together first; the latitude then comes from the iterative
    /// inverse isometric latitude (ellipsoidal) or a closed-form arctangent
    /// (spherical).
    General { negate: bool, ellipsoidal: bool },
}

/// What initialization does: the staging record's reference latitude is
/// seeded by the first standard parallel when the second was omitted and
/// nothing had set it; standard parallels equal and opposite within
/// tolerance are fatal before anything else is derived; otherwise every
/// branch selector is frozen.
pub open spec fn spec_init(p: ProjData, inputs: InitInputs) -> (ProjData, Result<
    Projection,
    Error,
>) {
    let seeded = ProjData { phi0_set: p.phi0_set || !inputs.lat2_given };
    if inputs.sum_within_tol {
        (seeded, Err(Error::ProjErrConicLatEqual))
    } else {
        (
            seeded,
            Ok(
                Projection {
                    ellips: inputs.es_nonzero,
                    secant: !inputs.diff_within_tol,
                    rho0_zero: inputs.phi0_near_pole,
                },
            ),
        )
    }
}

impl Projection {
    /// Initialize the projection from the observed parameter and tolerance
    /// outcomes, populating the staging record. Two copies of one value
    /// differ by less than any tolerance, so a defaulted second parallel
    /// observes `diff_within_tol`.
    pub fn init(p: &mut ProjData, inputs: InitInputs) -> (r: Result<Projection, Error>)
        requires
            !inputs.lat2_given ==> inputs.diff_within_tol,
        ensures
            (*final(p), r) == spec_init(*old(p), inputs),
    {
        if !inputs.lat2_given {
            p.phi0_set = true;
        }
        if inputs.sum_within_tol {
            return Err(Error::ProjErrConicLatEqual);
        }
        Ok(
            Projection {
                ellips: inputs.es_nonzero,
                secant: !inputs.diff_within_tol,
                rho0_zero: inputs.phi0_near_pole,
            },
        )
    }

    /// Decide the forward mapping on one latitude: `phi_near_pole` is
    /// whether `|phi|` lies within tolerance of a pole, `phi_n_nonpos`
    /// whether `phi` times the cone constant is at most zero. A pole on the
    /// side the cone does not open around cannot be represented and is the
    /// tolerance-condition error; the matching pole maps to a polar radius
    /// of exactly zero. The third coordinate always passes through
    /// unchanged.
    pub fn forward(&self, phi_near_pole: bool, phi_n_nonpos: bool) -> (r: Result<
        ForwardCase,
        Error,
    >)
        ensures
            phi_near_pole && phi_n_nonpos ==> r == Err::<ForwardCase, Error>(
                Error::ToleranceConditionError,
            ),
            phi_near_pole && !phi_n_nonpos ==> r == Ok::<ForwardCase, Error>(ForwardCase::PoleRho),
            !phi_near_pole && self.ellips ==> r == Ok::<ForwardCase, Error>(
                ForwardCase::EllipsoidalRho,
            ),
            !phi_near_pole && !self.ellips ==> r == Ok::<ForwardCase, Error>(
                ForwardCase::SphericalRho,
            ),
    {
        if phi_near_pole {
            if phi_n_nonpos {
                Err(Error::ToleranceConditionError)
            } else {
                Ok(ForwardCase::PoleRho)
            }
        } else if self.ellips {
            Ok(ForwardCase::EllipsoidalRho)
        } else {
            Ok(ForwardCase::SphericalRho)
        }
    }

    /// Decide the inverse mapping on one descaled, recentered point:
    /// `rho_nonzero` is whether the polar radius is exactly nonzero, and the
    /// two sign flags describe the cone constant (at most one holds). The
    /// third coordinate always passes through unchanged.
    pub fn inverse(&self, rho_nonzero: bool, n_negative: bool, n_positive: bool) -> (r:
        InverseCase)
        requires
            !(n_negative && n_positive),
        ensures
            !rho_nonzero ==> r == (InverseCase::Pole { north: n_positive }),
            rho_nonzero ==> r == (InverseCase::General {
                negate: n_negative,
                ellipsoidal: self.ellips,
            }),
    {
        if rho_nonzero {
            InverseCase::General { negate: n_negative, ellipsoidal: self.ellips }
        } else {
            InverseCase::Pole { north: n_positive }
        }
    }

    /// The conic projection defines an inverse mapping.
    pub fn has_inverse() -> (r: bool)
        ensures
            r,
    {
        true
    }

    /// The conic projection defines a forward mapping.
    pub fn has_forward() -> (r: bool)
        ensures
            r,
    {
        true
    }
}

/// Initializing with standard parallels equal and opposite within tolerance
/// fails with the dedicated error, and no projection instance exists.
pub proof fn lemma_degenerate_init(p: ProjData, inputs: InitInputs)
    requires
        inputs.sum_within_tol,
    ensures
        spec_init(p, inputs).1 == Err::<Projection, Error>(Error::ProjErrConicLatEqual),
{
}

/// Omitting the second standard parallel makes the projection behave as the
/// tangent case — one effective standard parallel — and defaults the shared
/// reference latitude to the first standard parallel.
pub proof fn lemma_default_second_parallel(p: ProjData, inputs: InitInputs)
    requires
        !inputs.lat2_given,
        !inputs.lat2_given ==> inputs.diff_within_tol,
        !inputs.sum_within_tol,
    ensures
        spec_init(p, inputs).0.phi0_set,
        spec_init(p, inputs).1 is Ok,
        spec_init(p, inputs).1 matches Ok(proj) ==> !proj.secant,
{
}

} // verus!

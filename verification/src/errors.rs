//! The closed error taxonomy shared by every fallible operation of the crate.

use vstd::prelude::*;

verus! {

/// Every failure the engine can report: parameter errors, domain and range
/// errors, structural errors fatal to projection construction, numeric
/// errors raised while projecting, and capability errors from the registry.
#[derive(Debug, Clone, Copy, PartialEq, Eq)]
pub enum Error {
    InputStringError(&'static str),
    NoValueParameter,
    ParameterValueError,
    MissingProjectionError,
    InvalidDatum,
    InvalidEllipsoid,
    InvalidParameterValue(&'static str),
    LatitudeOutOfRange,
    NoNADGridAvailable,
    InvalidToWGS84String,
    InvalidAxis,
    UnrecognizedFormat,
    LatOrLongExceedLimit,
    NanCoordinateValue,
    CoordinateOutOfRange,
    ProjectionNotFound,
    NoForwardProjectionDefined,
    NoInverseProjectionDefined,
    ProjErrConicLatEqual,
    ToleranceConditionError,
    NonInvPhi2Convergence,
}

impl Error {
    /// The descriptive text of each error, as a sequence of characters.
    pub open spec fn spec_message(self) -> Seq<char> {
        match self {
            Error::InputStringError(s) => s@,
            Error::NoValueParameter => "No value for parameter"@,
            Error::ParameterValueError => "Cannot retrieve value for parameter"@,
            Error::MissingProjectionError => "Missing projection name"@,
            Error::InvalidDatum => "Unrecognized datum"@,
            Error::InvalidEllipsoid => "Unrecognized ellipsoid"@,
            Error::InvalidParameterValue(s) => s@,
            Error::LatitudeOutOfRange => "Latitude out of range"@,
            Error::NoNADGridAvailable => "NAD grid not available"@,
            Error::InvalidToWGS84String => "Invalid 'towgs84' string"@,
            Error::InvalidAxis => "Invalid axis"@,
            Error::UnrecognizedFormat => "Unrecognized format"@,
            Error::LatOrLongExceedLimit => "Latitude or longitude over range"@,
            Error::NanCoordinateValue => "Nan value for coordinate"@,
            Error::CoordinateOutOfRange => "Coordinate out of range"@,
            Error::ProjectionNotFound => "Projection not found"@,
            Error::NoForwardProjectionDefined => "No forward projection defined for dest projection"@,
            Error::NoInverseProjectionDefined => "No inverse projection defined for src projection"@,
            Error::ProjErrConicLatEqual => "ProjErrConicLatEqual"@,
            Error::ToleranceConditionError => "Tolerance condition not satisfied"@,
            Error::NonInvPhi2Convergence => "Non convergence of phi2 calculation"@,
        }
    }

    /// The descriptive text of the error.
    pub fn message(&self) -> (r: &'static str)
        ensures
            r@ == self.spec_message(),
    {
        match self {
            Error::InputStringError(s) => s,
            Error::NoValueParameter => "No value for parameter",
            Error::ParameterValueError => "Cannot retrieve value for parameter",
            Error::MissingProjectionError => "Missing projection name",
            Error::InvalidDatum => "Unrecognized datum",
            Error::InvalidEllipsoid => "Unrecognized ellipsoid",
            Error::InvalidParameterValue(s) => s,
            Error::LatitudeOutOfRange => "Latitude out of range",
            Error::NoNADGridAvailable => "NAD grid not available",
            Error::InvalidToWGS84String => "Invalid 'towgs84' string",
            Error::InvalidAxis => "Invalid axis",
            Error::UnrecognizedFormat => "Unrecognized format",
            Error::LatOrLongExceedLimit => "Latitude or longitude over range",
            Error::NanCoordinateValue => "Nan value for coordinate",
            Error::CoordinateOutOfRange => "Coordinate out of range",
            Error::ProjectionNotFound => "Projection not found",
            Error::NoForwardProjectionDefined => "No forward projection defined for dest projection",
            Error::NoInverseProjectionDefined => "No inverse projection defined for src projection",
            Error::ProjErrConicLatEqual => "ProjErrConicLatEqual",
            Error::ToleranceConditionError => "Tolerance condition not satisfied",
            Error::NonInvPhi2Convergence => "Non convergence of phi2 calculation",
        }
    }
}

} // verus!

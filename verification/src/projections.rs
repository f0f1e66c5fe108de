//! The projection registry: a static mapping from a case-insensitive
//! projection name to the compiled-in projection kind and its capabilities.

pub mod lcc;

use vstd::prelude::*;

use crate::errors::Error;
use crate::names::{ci_equal, eq_ignore_ascii_case};

verus! {

/// The compiled-in projections.
#[derive(Debug, Clone, Copy, PartialEq, Eq, Structural)]
pub enum ProjectionKind {
    /// Geographic coordinates: longitude and latitude in radians.
    Latlong,
    /// Lambert Conformal Conic.
    Lcc,
}

/// What the registry maps a name to: the projection kind named, or the
/// not-found error for an unregistered name, ignoring ASCII case.
pub open spec fn spec_find_projection(name: Seq<char>) -> Result<ProjectionKind, Error> {
    if ci_equal(name, "latlong"@) || ci_equal(name, "latlon"@) || ci_equal(name, "longlat"@) {
        Ok(ProjectionKind::Latlong)
    } else if ci_equal(name, "lcc"@) {
        Ok(ProjectionKind::Lcc)
    } else {
        Err(Error::ProjectionNotFound)
    }
}

/// Look a projection name up in the registry, ignoring ASCII case.
pub fn find_projection(name: &str) -> (r: Result<ProjectionKind, Error>)
    ensures
        r == spec_find_projection(name@),
{
    if eq_ignore_ascii_case(name, "latlong") || eq_ignore_ascii_case(name, "latlon")
        || eq_ignore_ascii_case(name, "longlat") {
        Ok(ProjectionKind::Latlong)
    } else if eq_ignore_ascii_case(name, "lcc") {
        Ok(ProjectionKind::Lcc)
    } else {
        Err(Error::ProjectionNotFound)
    }
}

/// Whether the kind defines a forward projection.
pub fn kind_has_forward(kind: ProjectionKind) -> (r: bool)
    ensures
        r,
{
    match kind {
        ProjectionKind::Latlong => true,
        ProjectionKind::Lcc => true,
    }
}

/// Whether the kind defines an inverse projection.
pub fn kind_has_inverse(kind: ProjectionKind) -> (r: bool)
    ensures
        r,
{
    match kind {
        ProjectionKind::Latlong => true,
        ProjectionKind::Lcc => true,
    }
}

/// Building a transform pipeline demands an inverse projection of the source
/// and a forward projection of the destination; a source without an inverse
/// is reported first.
pub fn check_pipeline_capabilities(src_has_inverse: bool, dst_has_forward: bool) -> (r: Result<
    (),
    Error,
>)
    ensures
        !src_has_inverse ==> r == Err::<(), Error>(Error::NoInverseProjectionDefined),
        src_has_inverse && !dst_has_forward ==> r == Err::<(), Error>(
            Error::NoForwardProjectionDefined,
        ),
        src_has_inverse && dst_has_forward ==> r == Ok::<(), Error>(()),
{
    if !src_has_inverse {
        Err(Error::NoInverseProjectionDefined)
    } else if !dst_has_forward {
        Err(Error::NoForwardProjectionDefined)
    } else {
        Ok(())
    }
}

} // verus!

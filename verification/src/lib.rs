//! Geodetic coordinate reprojection: projection dispatch, conic projection
//! decision logic, and a generic fail-fast geometry traversal framework.
//!
//! The floating-point kernel — trigonometry, the isometric-latitude
//! transform and its Newton inversion — lives with the caller; every branch
//! it may take, every derived-constant selection, every iteration budget and
//! every failure it reports is decided and proved here, and the traversal of
//! geometry values is verified end to end over any coordinate scalar.

mod errors;
mod geometry;
mod math;
mod names;
mod projections;
mod transform;
mod units;

pub use errors::Error;
pub use geometry::{Coord, Line, LineString, MultiPoint, Point};
pub use math::{Phi2Iter, Phi2Step};
pub use names::{ci_equal, eq_ignore_ascii_case, lower_code};
pub use projections::lcc;
pub use projections::{
    check_pipeline_capabilities, find_projection, kind_has_forward, kind_has_inverse,
    spec_find_projection, ProjectionKind,
};
pub use transform::{
    first_failure, lemma_failing_leaf_forbids_success, lemma_identical_leaves_identical_images,
    transform, transformed_prefix, untouched_or_transformed, GeographicStep, Pipeline, Transform,
    TransformClosure,
};
pub use units::{find_unit_to_meter, spec_find_unit, UnitRatio};

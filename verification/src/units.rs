//! The static table of linear units. Each unit's conversion factor to meters
//! is held as an exact ratio of integers; callers needing a scalar divide
//! the numerator by the denominator.

use vstd::prelude::*;

use crate::names::{ci_equal, eq_ignore_ascii_case};

verus! {

/// A unit's conversion factor to meters, as the exact ratio
/// `num / den`.
#[derive(Debug, Clone, Copy, PartialEq, Eq, Structural)]
pub struct UnitRatio {
    pub num: u64,
    pub den: u64,
}

/// The units table: what `find_unit_to_meter` returns for each name,
/// ignoring ASCII case; `None` for a name of no registered unit.
pub open spec fn spec_find_unit(name: Seq<char>) -> Option<UnitRatio> {
    if ci_equal(name, "km"@) {
        Some(UnitRatio { num: 1000, den: 1 })  // Kilometer
    } else if ci_equal(name, "m"@) {
        Some(UnitRatio { num: 1, den: 1 })  // Meter
    } else if ci_equal(name, "dm"@) {
        Some(UnitRatio { num: 1, den: 10 })  // Decimeter
    } else if ci_equal(name, "cm"@) {
        Some(UnitRatio { num: 1, den: 100 })  // Centimeter
    } else if ci_equal(name, "mm"@) {
        Some(UnitRatio { num: 1, den: 1000 })  // Millimeter
    } else if ci_equal(name, "kmi"@) {
        Some(UnitRatio { num: 1852, den: 1 })  // International Nautical Mile
    } else if ci_equal(name, "in"@) {
        Some(UnitRatio { num: 254, den: 10000 })  // International Inch
    } else if ci_equal(name, "ft"@) {
        Some(UnitRatio { num: 3048, den: 10000 })  // International Foot
    } else if ci_equal(name, "yd"@) {
        Some(UnitRatio { num: 9144, den: 10000 })  // International Yard
    } else if ci_equal(name, "mi"@) {
        Some(UnitRatio { num: 1609344, den: 1000 })  // International Statute Mile
    } else if ci_equal(name, "fath"@) {
        Some(UnitRatio { num: 18288, den: 10000 })  // International Fathom
    } else if ci_equal(name, "ch"@) {
        Some(UnitRatio { num: 201168, den: 10000 })  // International Chain
    } else if ci_equal(name, "link"@) {
        Some(UnitRatio { num: 201168, den: 1000000 })  // International Link
    } else if ci_equal(name, "us-in"@) {
        Some(UnitRatio { num: 100, den: 3937 })  // U.S. Surveyor's Inch
    } else if ci_equal(name, "us-ft"@) {
        Some(UnitRatio { num: 1200, den: 3937 })  // U.S. Surveyor's Foot
    } else if ci_equal(name, "us-yd"@) {
        Some(UnitRatio { num: 3600, den: 3937 })  // U.S. Surveyor's Yard
    } else if ci_equal(name, "us-ch"@) {
        Some(UnitRatio { num: 79200, den: 3937 })  // U.S. Surveyor's Chain
    } else if ci_equal(name, "us-mi"@) {
        Some(UnitRatio { num: 6336000, den: 3937 })  // U.S. Surveyor's Statute Mile
    } else if ci_equal(name, "ind-yd"@) {
        Some(UnitRatio { num: 91439523, den: 100000000 })  // Indian Yard
    } else if ci_equal(name, "ind-ft"@) {
        Some(UnitRatio { num: 30479841, den: 100000000 })  // Indian Foot
    } else if ci_equal(name, "ind-ch"@) {
        Some(UnitRatio { num: 2011669506, den: 100000000 })  // Indian Chain
    } else {
        None
    }
}

/// Return the unit definition: the exact meters-per-unit ratio of the named
/// linear unit, matched ignoring ASCII case.
pub fn find_unit_to_meter(name: &str) -> (r: Option<UnitRatio>)
    ensures
        r == spec_find_unit(name@),
{
    if eq_ignore_ascii_case(name, "km") {
        Some(UnitRatio { num: 1000, den: 1 })
    } else if eq_ignore_ascii_case(name, "m") {
        Some(UnitRatio { num: 1, den: 1 })
    } else if eq_ignore_ascii_case(name, "dm") {
        Some(UnitRatio { num: 1, den: 10 })
    } else if eq_ignore_ascii_case(name, "cm") {
        Some(UnitRatio { num: 1, den: 100 })
    } else if eq_ignore_ascii_case(name, "mm") {
        Some(UnitRatio { num: 1, den: 1000 })
    } else if eq_ignore_ascii_case(name, "kmi") {
        Some(UnitRatio { num: 1852, den: 1 })
    } else if eq_ignore_ascii_case(name, "in") {
        Some(UnitRatio { num: 254, den: 10000 })
    } else if eq_ignore_ascii_case(name, "ft") {
        Some(UnitRatio { num: 3048, den: 10000 })
    } else if eq_ignore_ascii_case(name, "yd") {
        Some(UnitRatio { num: 9144, den: 10000 })
    } else if eq_ignore_ascii_case(name, "mi") {
        Some(UnitRatio { num: 1609344, den: 1000 })
    } else if eq_ignore_ascii_case(name, "fath") {
        Some(UnitRatio { num: 18288, den: 10000 })
    } else if eq_ignore_ascii_case(name, "ch") {
        Some(UnitRatio { num: 201168, den: 10000 })
    } else if eq_ignore_ascii_case(name, "link") {
        Some(UnitRatio { num: 201168, den: 1000000 })
    } else if eq_ignore_ascii_case(name, "us-in") {
        Some(UnitRatio { num: 100, den: 3937 })
    } else if eq_ignore_ascii_case(name, "us-ft") {
        Some(UnitRatio { num: 1200, den: 3937 })
    } else if eq_ignore_ascii_case(name, "us-yd") {
        Some(UnitRatio { num: 3600, den: 3937 })
    } else if eq_ignore_ascii_case(name, "us-ch") {
        Some(UnitRatio { num: 79200, den: 3937 })
    } else if eq_ignore_ascii_case(name, "us-mi") {
        Some(UnitRatio { num: 6336000, den: 3937 })
    } else if eq_ignore_ascii_case(name, "ind-yd") {
        Some(UnitRatio { num: 91439523, den: 100000000 })
    } else if eq_ignore_ascii_case(name, "ind-ft") {
        Some(UnitRatio { num: 30479841, den: 100000000 })
    } else if eq_ignore_ascii_case(name, "ind-ch") {
        Some(UnitRatio { num: 2011669506, den: 100000000 })
    } else {
        None
    }
}

} // verus!

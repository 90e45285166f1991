//! The error type shared by every decoding function.

use vstd::prelude::*;

verus! {

/// Why a decode call failed.
///
/// `Io` is raised when the input ends before a required width of bytes is
/// available (truncated input). `GeometryFormat` is raised for a GPKG
/// stream whose magic bytes are wrong, for an envelope-length selector
/// outside the valid settings, and for a decoded base kind that dispatch
/// does not support. `NestingTooDeep` is raised when geometry collections
/// nest deeper than the fixed limit. Processor callbacks return the same
/// type, and such failures are propagated unchanged.
#[derive(Clone, Copy, Debug, PartialEq, Eq)]
pub enum GeoError {
    Io,
    GeometryFormat,
    NestingTooDeep,
}

impl GeoError {
    /// A short human-readable description of the error.
    pub fn message(&self) -> (s: String)
        ensures
            *self == GeoError::Io ==> s@ == "I/O error"@,
            *self == GeoError::GeometryFormat ==> s@ == "geometry format error"@,
            *self == GeoError::NestingTooDeep ==> s@ == "geometry nesting too deep"@,
    {
        match self {
            GeoError::Io => "I/O error".to_string(),
            GeoError::GeometryFormat => "geometry format error".to_string(),
            GeoError::NestingTooDeep => "geometry nesting too deep".to_string(),
        }
    }
}

} // verus!

//! Streaming decoder for the binary geometry encodings used by geospatial
//! databases: OGC Well-Known Binary (WKB), the PostGIS extension EWKB
//! (SRID and explicit Z/M dimension flags), and the GeoPackage binary
//! envelope format (GPKG). The decoder walks arbitrarily nested
//! geometries and drives an abstract processor through
//! begin/coordinate/end callbacks, without knowing the output
//! representation.
//!
//! Wire doubles are handled as their IEEE-754 bit patterns throughout,
//! so decoding is exact and fully specified: every public function's
//! contract pins down the events emitted and the bytes consumed.

pub mod bytes;
pub mod error;
pub mod header;
pub mod laws;
pub mod processor;
pub mod types;
pub mod walker;

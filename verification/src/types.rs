//! The data model: byte orders, the geometry kind catalogue, normalized
//! headers, and the events a decoded geometry is reported as.

use vstd::prelude::*;

verus! {

/// Byte order of a wire value: WKB/EWKB encode it as a leading byte
/// (0 = big endian, any nonzero value = little endian); GPKG encodes it
/// as a flag bit.
#[derive(Clone, Copy, Debug, PartialEq, Eq, Structural)]
pub enum ByteOrder {
    BigEndian,
    LittleEndian,
}

/// The OGC geometry catalogue, identified on the wire by small integer
/// codes (1-7 and 15-17); every other code maps to `Unknown`.
/// Classification never fails: unsupported kinds are rejected later, at
/// dispatch.
#[derive(Clone, Copy, Debug, PartialEq, Eq, Structural)]
pub enum WKBGeometryType {
    Point,
    LineString,
    Polygon,
    MultiPoint,
    MultiLineString,
    MultiPolygon,
    GeometryCollection,
    PolyhedralSurface,
    Tin,
    Triangle,
    Unknown,
}

/// The kind a base type code selects: 1-7 and 15-17 name a geometry kind,
/// everything else is `Unknown`.
pub open spec fn kind_of_code(code: u32) -> WKBGeometryType {
    if code == 1 {
        WKBGeometryType::Point
    } else if code == 2 {
        WKBGeometryType::LineString
    } else if code == 3 {
        WKBGeometryType::Polygon
    } else if code == 4 {
        WKBGeometryType::MultiPoint
    } else if code == 5 {
        WKBGeometryType::MultiLineString
    } else if code == 6 {
        WKBGeometryType::MultiPolygon
    } else if code == 7 {
        WKBGeometryType::GeometryCollection
    } else if code == 15 {
        WKBGeometryType::PolyhedralSurface
    } else if code == 16 {
        WKBGeometryType::Tin
    } else if code == 17 {
        WKBGeometryType::Triangle
    } else {
        WKBGeometryType::Unknown
    }
}

impl WKBGeometryType {
    /// Classify a base type code.
    pub fn from_u32(value: u32) -> (kind: WKBGeometryType)
        ensures
            kind == kind_of_code(value),
    {
        match value {
            1 => WKBGeometryType::Point,
            2 => WKBGeometryType::LineString,
            3 => WKBGeometryType::Polygon,
            4 => WKBGeometryType::MultiPoint,
            5 => WKBGeometryType::MultiLineString,
            6 => WKBGeometryType::MultiPolygon,
            7 => WKBGeometryType::GeometryCollection,
            15 => WKBGeometryType::PolyhedralSurface,
            16 => WKBGeometryType::Tin,
            17 => WKBGeometryType::Triangle,
            _ => WKBGeometryType::Unknown,
        }
    }
}

/// Which header layout is read for the elements of a composite geometry:
/// EWKB streams re-read EWKB child headers, while GPKG bodies (and plain
/// WKB) re-read OGC child headers.
#[derive(Clone, Copy, Debug, PartialEq, Eq, Structural)]
pub enum HeaderFormat {
    Ogc,
    Ewkb,
}

/// The normalized result of decoding any of the three header layouts.
///
/// `byte_order` governs everything read under this header until a nested
/// child header switches it. `has_z` and `has_m` say whether a Z and/or M
/// ordinate accompanies every coordinate under this header. `srid` is
/// present only when the wire format carries one (EWKB with the SRID bit
/// set; GPKG always). `envelope` holds the GPKG bounding-box doubles as
/// their IEEE-754 bit patterns, in wire order; it is empty for OGC/EWKB.
#[derive(Debug, PartialEq)]
pub struct GeometryHeader {
    pub byte_order: ByteOrder,
    pub kind: WKBGeometryType,
    pub has_z: bool,
    pub has_m: bool,
    pub srid: Option<i32>,
    pub envelope: Vec<u64>,
}

/// Which ordinates a processor tracks beyond x and y.
#[derive(Clone, Copy, Debug, PartialEq, Eq, Structural)]
pub struct CoordDimensions {
    pub z: bool,
    pub m: bool,
}

/// One callback made while walking a geometry. Coordinate values are
/// IEEE-754 double bit patterns; interpreting them as numbers is the
/// consumer's business. `tagged` distinguishes a standalone LineString or
/// Polygon from one nested as a component of a parent. `idx` is the
/// element's position within its parent (0 at the top level).
#[derive(Clone, Copy, Debug, PartialEq, Eq)]
pub enum Event {
    PointBegin { idx: usize },
    PointEnd { idx: usize },
    MultiPointBegin { n: usize, idx: usize },
    MultiPointEnd { idx: usize },
    LineStringBegin { tagged: bool, n: usize, idx: usize },
    LineStringEnd { tagged: bool, idx: usize },
    MultiLineStringBegin { n: usize, idx: usize },
    MultiLineStringEnd { idx: usize },
    PolygonBegin { tagged: bool, n: usize, idx: usize },
    PolygonEnd { tagged: bool, idx: usize },
    MultiPolygonBegin { n: usize, idx: usize },
    MultiPolygonEnd { idx: usize },
    GeometryCollectionBegin { n: usize, idx: usize },
    GeometryCollectionEnd { idx: usize },
    Xy { x: u64, y: u64, idx: usize },
    Coordinate {
        x: u64,
        y: u64,
        z: Option<u64>,
        m: Option<u64>,
        t: Option<u64>,
        tm: Option<u64>,
        idx: usize,
    },
}

} // verus!

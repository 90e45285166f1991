//! The recursive geometry walker: given a decoded header and a byte
//! stream, it dispatches on the base type and drives a processor through
//! begin/coordinate/end callbacks, re-decoding a child header for every
//! element of a composite geometry and recursing for collections.
//!
//! The walker's behaviour is pinned down by a family of spec functions
//! that compute, for any input, either the exact event sequence emitted
//! and the cursor position after the geometry, or the error raised. A
//! processor callback may itself fail; the walk then stops at once, so
//! failure of an infallible processor is impossible and the contracts
//! state the outcome exactly for such processors.

use vstd::prelude::*;

use crate::bytes::{in_bounds, read_f64_bits, read_u32, u32_at, u64_at};
use crate::error::GeoError;
use crate::header::{
    ewkb_header_out, gpkg_header_out, header_out, read_child_header, read_ewkb_header,
    read_gpkg_header, HeaderOutcome,
};
use crate::processor::GeomProcessor;
use crate::types::{ByteOrder, Event, GeometryHeader, HeaderFormat, WKBGeometryType};

verus! {

/// How deep geometry collections may nest. Input-controlled recursion is
/// cut off with a `NestingTooDeep` error beyond this depth.
pub const MAX_NESTING_DEPTH: u32 = 64;

/// What a walk over part of a geometry does: either the events emitted
/// and the cursor position after the part, or the error raised.
#[verifier::ext_equal]
pub ghost enum ParseOutcome {
    Events { evts: Seq<Event>, end: int },
    Fail { err: GeoError },
}

/// The events of an outcome (empty for a failure).
pub open spec fn out_evts(o: ParseOutcome) -> Seq<Event> {
    match o {
        ParseOutcome::Events { evts, .. } => evts,
        ParseOutcome::Fail { .. } => Seq::empty(),
    }
}

/// The end position of an outcome (0 for a failure).
pub open spec fn out_end(o: ParseOutcome) -> int {
    match o {
        ParseOutcome::Events { end, .. } => end,
        ParseOutcome::Fail { .. } => 0,
    }
}

/// Emit `prefix` before everything `o` emits.
pub open spec fn prepend(prefix: Seq<Event>, o: ParseOutcome) -> ParseOutcome {
    match o {
        ParseOutcome::Events { evts, end } => ParseOutcome::Events { evts: prefix + evts, end },
        ParseOutcome::Fail { .. } => o,
    }
}

/// Emit `ev` after everything `o` emits.
pub open spec fn append_event(o: ParseOutcome, ev: Event) -> ParseOutcome {
    match o {
        ParseOutcome::Events { evts, end } => ParseOutcome::Events { evts: evts.push(ev), end },
        ParseOutcome::Fail { .. } => o,
    }
}

pub proof fn lemma_prepend_prepend(a: Seq<Event>, b: Seq<Event>, o: ParseOutcome)
    ensures
        prepend(a, prepend(b, o)) == prepend(a + b, o),
{
    match o {
        ParseOutcome::Events { evts, end } => {
            assert(a + (b + evts) =~= (a + b) + evts);
        },
        ParseOutcome::Fail { .. } => {},
    }
}

/// Whether a processor wants the full coordinate form.
pub open spec fn spec_multi<P: GeomProcessor>(p: &P) -> bool {
    p.dims_z() || p.dims_m()
}

/// The width in bytes of one coordinate tuple.
pub open spec fn coord_width(has_z: bool, has_m: bool) -> int {
    16 + (if has_z {
        8int
    } else {
        0int
    }) + (if has_m {
        8int
    } else {
        0int
    })
}

/// The event one coordinate tuple at `pos` is reported as: x and y, then
/// z iff `has_z`, then m iff `has_m`, in that fixed order; the full form
/// iff the processor is dimension-aware.
#[verifier::opaque]
pub open spec fn coord_event(
    d: Seq<u8>,
    pos: int,
    order: ByteOrder,
    has_z: bool,
    has_m: bool,
    multi: bool,
    idx: usize,
) -> Event {
    let x = u64_at(d, pos, order);
    let y = u64_at(d, pos + 8, order);
    let z = if has_z {
        Some(u64_at(d, pos + 16, order))
    } else {
        None
    };
    let m = if has_m {
        Some(
            u64_at(
                d,
                pos + 16 + (if has_z {
                    8int
                } else {
                    0int
                }),
                order,
            ),
        )
    } else {
        None
    };
    if multi {
        Event::Coordinate { x, y, z, m, t: None, tm: None, idx }
    } else {
        Event::Xy { x, y, idx }
    }
}

/// The outcome of reading one coordinate tuple at `pos`.
pub open spec fn coord_out(
    d: Seq<u8>,
    pos: int,
    order: ByteOrder,
    has_z: bool,
    has_m: bool,
    multi: bool,
    idx: usize,
) -> ParseOutcome {
    if !in_bounds(d, pos, coord_width(has_z, has_m)) {
        ParseOutcome::Fail { err: GeoError::Io }
    } else {
        ParseOutcome::Events {
            evts: seq![coord_event(d, pos, order, has_z, has_m, multi, idx)],
            end: pos + coord_width(has_z, has_m),
        }
    }
}

/// The outcome of reading coordinates `i` to `n` (exclusive) in a row,
/// indexed by their positions.
pub open spec fn coords_out(
    d: Seq<u8>,
    pos: int,
    order: ByteOrder,
    has_z: bool,
    has_m: bool,
    multi: bool,
    i: usize,
    n: usize,
) -> ParseOutcome
    decreases n - i,
{
    if i >= n {
        ParseOutcome::Events { evts: Seq::empty(), end: pos }
    } else {
        match coord_out(d, pos, order, has_z, has_m, multi, i) {
            ParseOutcome::Fail { err } => ParseOutcome::Fail { err },
            ParseOutcome::Events { evts, end } => prepend(
                evts,
                coords_out(d, end, order, has_z, has_m, multi, (i + 1) as usize, n),
            ),
        }
    }
}

/// The outcome of a LineString body at `pos`: a 32-bit point count under
/// `order`, begin, that many coordinates, end.
pub open spec fn line_out(
    d: Seq<u8>,
    pos: int,
    order: ByteOrder,
    has_z: bool,
    has_m: bool,
    multi: bool,
    tagged: bool,
    idx: usize,
) -> ParseOutcome {
    if !in_bounds(d, pos, 4) {
        ParseOutcome::Fail { err: GeoError::Io }
    } else {
        let n = u32_at(d, pos, order) as usize;
        append_event(
            prepend(
                seq![Event::LineStringBegin { tagged, n, idx }],
                coords_out(d, pos + 4, order, has_z, has_m, multi, 0, n),
            ),
            Event::LineStringEnd { tagged, idx },
        )
    }
}

/// The outcome of rings `i` to `n` of a Polygon: each ring is a
/// LineString body, untagged, indexed by its position.
pub open spec fn rings_out(
    d: Seq<u8>,
    pos: int,
    order: ByteOrder,
    has_z: bool,
    has_m: bool,
    multi: bool,
    i: usize,
    n: usize,
) -> ParseOutcome
    decreases n - i,
{
    if i >= n {
        ParseOutcome::Events { evts: Seq::empty(), end: pos }
    } else {
        match line_out(d, pos, order, has_z, has_m, multi, false, i) {
            ParseOutcome::Fail { err } => ParseOutcome::Fail { err },
            ParseOutcome::Events { evts, end } => prepend(
                evts,
                rings_out(d, end, order, has_z, has_m, multi, (i + 1) as usize, n),
            ),
        }
    }
}

/// The outcome of a Polygon body at `pos`: a 32-bit ring count under
/// `order`, begin, that many untagged rings, end.
pub open spec fn poly_out(
    d: Seq<u8>,
    pos: int,
    order: ByteOrder,
    has_z: bool,
    has_m: bool,
    multi: bool,
    tagged: bool,
    idx: usize,
) -> ParseOutcome {
    if !in_bounds(d, pos, 4) {
        ParseOutcome::Fail { err: GeoError::Io }
    } else {
        let n = u32_at(d, pos, order) as usize;
        append_event(
            prepend(
                seq![Event::PolygonBegin { tagged, n, idx }],
                rings_out(d, pos + 4, order, has_z, has_m, multi, 0, n),
            ),
            Event::PolygonEnd { tagged, idx },
        )
    }
}

/// The outcome of elements `i` to `n` of a MultiPoint: each element
/// carries its own child header (read under the `fmt` strategy) followed
/// by one coordinate tuple under that header's order and dimensions.
pub open spec fn points_out(
    d: Seq<u8>,
    pos: int,
    fmt: HeaderFormat,
    multi: bool,
    i: usize,
    n: usize,
) -> ParseOutcome
    decreases n - i,
{
    if i >= n {
        ParseOutcome::Events { evts: Seq::empty(), end: pos }
    } else {
        match header_out(d, pos, fmt) {
            HeaderOutcome::Fail { err } => ParseOutcome::Fail { err },
            HeaderOutcome::Hdr { order, has_z, has_m, end, .. } => {
                match coord_out(d, end, order, has_z, has_m, multi, i) {
                    ParseOutcome::Fail { err } => ParseOutcome::Fail { err },
                    ParseOutcome::Events { evts, end } => prepend(
                        evts,
                        points_out(d, end, fmt, multi, (i + 1) as usize, n),
                    ),
                }
            },
        }
    }
}

/// The outcome of elements `i` to `n` of a MultiLineString: a child
/// header each, then an untagged LineString body under it.
pub open spec fn lines_out(
    d: Seq<u8>,
    pos: int,
    fmt: HeaderFormat,
    multi: bool,
    i: usize,
    n: usize,
) -> ParseOutcome
    decreases n - i,
{
    if i >= n {
        ParseOutcome::Events { evts: Seq::empty(), end: pos }
    } else {
        match header_out(d, pos, fmt) {
            HeaderOutcome::Fail { err } => ParseOutcome::Fail { err },
            HeaderOutcome::Hdr { order, has_z, has_m, end, .. } => {
                match line_out(d, end, order, has_z, has_m, multi, false, i) {
                    ParseOutcome::Fail { err } => ParseOutcome::Fail { err },
                    ParseOutcome::Events { evts, end } => prepend(
                        evts,
                        lines_out(d, end, fmt, multi, (i + 1) as usize, n),
                    ),
                }
            },
        }
    }
}

/// The outcome of elements `i` to `n` of a MultiPolygon: a child header
/// each, then an untagged Polygon body under it.
pub open spec fn polys_out(
    d: Seq<u8>,
    pos: int,
    fmt: HeaderFormat,
    multi: bool,
    i: usize,
    n: usize,
) -> ParseOutcome
    decreases n - i,
{
    if i >= n {
        ParseOutcome::Events { evts: Seq::empty(), end: pos }
    } else {
        match header_out(d, pos, fmt) {
            HeaderOutcome::Fail { err } => ParseOutcome::Fail { err },
            HeaderOutcome::Hdr { order, has_z, has_m, end, .. } => {
                match poly_out(d, end, order, has_z, has_m, multi, false, i) {
                    ParseOutcome::Fail { err } => ParseOutcome::Fail { err },
                    ParseOutcome::Events { evts, end } => prepend(
                        evts,
                        polys_out(d, end, fmt, multi, (i + 1) as usize, n),
                    ),
                }
            },
        }
    }
}

/// The outcome of a MultiPoint body at `pos`: a 32-bit element count
/// under the parent's `order`, begin, one child header plus coordinate
/// per element, end.
pub open spec fn multipoint_out(
    d: Seq<u8>,
    pos: int,
    order: ByteOrder,
    fmt: HeaderFormat,
    multi: bool,
    idx: usize,
) -> ParseOutcome {
    if !in_bounds(d, pos, 4) {
        ParseOutcome::Fail { err: GeoError::Io }
    } else {
        let n = u32_at(d, pos, order) as usize;
        append_event(
            prepend(
                seq![Event::MultiPointBegin { n, idx }],
                points_out(d, pos + 4, fmt, multi, 0, n),
            ),
            Event::MultiPointEnd { idx },
        )
    }
}

/// The outcome of a MultiLineString body at `pos`: a 32-bit element count
/// under the parent's `order`, begin, one child header plus untagged
/// LineString body per element, end.
pub open spec fn multiline_out(
    d: Seq<u8>,
    pos: int,
    order: ByteOrder,
    fmt: HeaderFormat,
    multi: bool,
    idx: usize,
) -> ParseOutcome {
    if !in_bounds(d, pos, 4) {
        ParseOutcome::Fail { err: GeoError::Io }
    } else {
        let n = u32_at(d, pos, order) as usize;
        append_event(
            prepend(
                seq![Event::MultiLineStringBegin { n, idx }],
                lines_out(d, pos + 4, fmt, multi, 0, n),
            ),
            Event::MultiLineStringEnd { idx },
        )
    }
}

/// The outcome of a MultiPolygon body at `pos`: a 32-bit element count
/// under the parent's `order`, begin, one child header plus untagged
/// Polygon body per element, end.
pub open spec fn multipoly_out(
    d: Seq<u8>,
    pos: int,
    order: ByteOrder,
    fmt: HeaderFormat,
    multi: bool,
    idx: usize,
) -> ParseOutcome {
    if !in_bounds(d, pos, 4) {
        ParseOutcome::Fail { err: GeoError::Io }
    } else {
        let n = u32_at(d, pos, order) as usize;
        append_event(
            prepend(
                seq![Event::MultiPolygonBegin { n, idx }],
                polys_out(d, pos + 4, fmt, multi, 0, n),
            ),
            Event::MultiPolygonEnd { idx },
        )
    }
}

/// The outcome of a GeometryCollection body at `pos`: a 32-bit element
/// count under the parent's `order`, begin, one child header plus a full
/// recursive geometry body per element, end.
pub open spec fn collection_out(
    d: Seq<u8>,
    pos: int,
    order: ByteOrder,
    fmt: HeaderFormat,
    multi: bool,
    idx: usize,
    depth: nat,
) -> ParseOutcome
    decreases depth, 1int, 0int,
{
    if !in_bounds(d, pos, 4) {
        ParseOutcome::Fail { err: GeoError::Io }
    } else {
        let n = u32_at(d, pos, order) as usize;
        append_event(
            prepend(
                seq![Event::GeometryCollectionBegin { n, idx }],
                geoms_out(d, pos + 4, fmt, multi, 0, n, depth),
            ),
            Event::GeometryCollectionEnd { idx },
        )
    }
}

/// The outcome of one geometry body at `pos`, of the given kind, under
/// the given byte order and dimension flags. Composite kinds read a
/// 32-bit element count under the parent's order and re-decode a child
/// header per element; collections recurse with one level of depth
/// budget spent. Triangle, PolyhedralSurface, TIN and Unknown are
/// rejected at dispatch with a format error.
pub open spec fn geometry_out(
    d: Seq<u8>,
    pos: int,
    order: ByteOrder,
    kind: WKBGeometryType,
    has_z: bool,
    has_m: bool,
    fmt: HeaderFormat,
    multi: bool,
    idx: usize,
    depth: nat,
) -> ParseOutcome
    decreases depth, 2int, 0int,
{
    match kind {
        WKBGeometryType::Point => append_event(
            prepend(
                seq![Event::PointBegin { idx }],
                coord_out(d, pos, order, has_z, has_m, multi, 0),
            ),
            Event::PointEnd { idx },
        ),
        WKBGeometryType::LineString => line_out(d, pos, order, has_z, has_m, multi, true, idx),
        WKBGeometryType::Polygon => poly_out(d, pos, order, has_z, has_m, multi, true, idx),
        WKBGeometryType::MultiPoint => multipoint_out(d, pos, order, fmt, multi, idx),
        WKBGeometryType::MultiLineString => multiline_out(d, pos, order, fmt, multi, idx),
        WKBGeometryType::MultiPolygon => multipoly_out(d, pos, order, fmt, multi, idx),
        WKBGeometryType::GeometryCollection => collection_out(d, pos, order, fmt, multi, idx, depth),
        _ => ParseOutcome::Fail { err: GeoError::GeometryFormat },
    }
}

/// The outcome of elements `i` to `n` of a GeometryCollection: a child
/// header each, then a full geometry body of the child's kind, recursing
/// with one level of depth budget spent; a child found with no budget
/// left is rejected as nested too deeply.
pub open spec fn geoms_out(
    d: Seq<u8>,
    pos: int,
    fmt: HeaderFormat,
    multi: bool,
    i: usize,
    n: usize,
    depth: nat,
) -> ParseOutcome
    decreases depth, 0int, n - i,
{
    if i >= n {
        ParseOutcome::Events { evts: Seq::empty(), end: pos }
    } else if depth == 0 {
        ParseOutcome::Fail { err: GeoError::NestingTooDeep }
    } else {
        match header_out(d, pos, fmt) {
            HeaderOutcome::Fail { err } => ParseOutcome::Fail { err },
            HeaderOutcome::Hdr { order, kind, has_z, has_m, end, .. } => {
                match geometry_out(
                    d,
                    end,
                    order,
                    kind,
                    has_z,
                    has_m,
                    fmt,
                    multi,
                    i,
                    (depth - 1) as nat,
                ) {
                    ParseOutcome::Fail { err } => ParseOutcome::Fail { err },
                    ParseOutcome::Events { evts, end } => prepend(
                        evts,
                        geoms_out(d, end, fmt, multi, (i + 1) as usize, n, depth),
                    ),
                }
            },
        }
    }
}

/// The outcome of a whole EWKB stream at `pos`: an EWKB header, then the
/// geometry body, with child headers read as EWKB and the full depth
/// budget.
pub open spec fn ewkb_geom_out(d: Seq<u8>, pos: int, multi: bool) -> ParseOutcome {
    match ewkb_header_out(d, pos) {
        HeaderOutcome::Fail { err } => ParseOutcome::Fail { err },
        HeaderOutcome::Hdr { order, kind, has_z, has_m, end, .. } => geometry_out(
            d,
            end,
            order,
            kind,
            has_z,
            has_m,
            HeaderFormat::Ewkb,
            multi,
            0,
            MAX_NESTING_DEPTH as nat,
        ),
    }
}

/// The outcome of a whole GPKG stream at `pos`: a GPKG header (with its
/// embedded OGC header), then the geometry body, with child headers read
/// as plain OGC and the full depth budget.
pub open spec fn gpkg_geom_out(d: Seq<u8>, pos: int, multi: bool) -> ParseOutcome {
    match gpkg_header_out(d, pos) {
        HeaderOutcome::Fail { err } => ParseOutcome::Fail { err },
        HeaderOutcome::Hdr { order, kind, has_z, has_m, end, .. } => geometry_out(
            d,
            end,
            order,
            kind,
            has_z,
            has_m,
            HeaderFormat::Ogc,
            multi,
            0,
            MAX_NESTING_DEPTH as nat,
        ),
    }
}

/// Whether the given processor wants the full coordinate form (it tracks
/// Z or M ordinates).
pub fn multi_dim<P: GeomProcessor>(processor: &P) -> (b: bool)
    ensures
        b == spec_multi(processor),
{
    let d = processor.dimensions();
    d.z || d.m
}

/// Read one coordinate tuple under `info`'s byte order and dimension
/// flags and emit it to the processor, in the full form iff `multi`.
pub fn process_coord<P: GeomProcessor>(
    data: &Vec<u8>,
    pos: &mut usize,
    info: &GeometryHeader,
    multi: bool,
    idx: usize,
    processor: &mut P,
) -> (r: Result<(), GeoError>)
    ensures
        final(processor).dims_z() == old(processor).dims_z(),
        final(processor).dims_m() == old(processor).dims_m(),
        final(processor).infallible() == old(processor).infallible(),
        ({
            let out = coord_out(
                data@,
                *old(pos) as int,
                info.byte_order,
                info.has_z,
                info.has_m,
                multi,
                idx,
            );
            &&& r is Ok ==> out is Events && final(processor).events() == old(processor).events()
                + out_evts(out) && *final(pos) as int == out_end(out)
            &&& old(processor).infallible() ==> (r matches Err(e) ==> out == (ParseOutcome::Fail {
                err: e,
            }))
        }),
{
    proof {
        reveal(coord_event);
    }
    let order = info.byte_order;
    let x = match read_f64_bits(data, pos, order) {
        Ok(v) => v,
        Err(e) => return Err(e),
    };
    let y = match read_f64_bits(data, pos, order) {
        Ok(v) => v,
        Err(e) => return Err(e),
    };
    let z = if info.has_z {
        match read_f64_bits(data, pos, order) {
            Ok(v) => Some(v),
            Err(e) => return Err(e),
        }
    } else {
        None
    };
    let m = if info.has_m {
        match read_f64_bits(data, pos, order) {
            Ok(v) => Some(v),
            Err(e) => return Err(e),
        }
    } else {
        None
    };
    let r = if multi {
        processor.coordinate(x, y, z, m, None, None, idx)
    } else {
        processor.xy(x, y, idx)
    };
    match r {
        Ok(()) => {
            proof {
                let out = coord_out(
                    data@,
                    *old(pos) as int,
                    info.byte_order,
                    info.has_z,
                    info.has_m,
                    multi,
                    idx,
                );
                assert(final(processor).events() =~= old(processor).events() + out_evts(out));
            }
            Ok(())
        },
        Err(e) => Err(e),
    }
}

/// Read a LineString body (point count, then that many coordinates) and
/// drive the processor through it. `tagged` distinguishes a standalone
/// LineString from a Polygon ring.
#[verifier::loop_isolation(false)]
#[verifier::rlimit(60)]
pub fn process_linestring<P: GeomProcessor>(
    data: &Vec<u8>,
    pos: &mut usize,
    info: &GeometryHeader,
    tagged: bool,
    idx: usize,
    processor: &mut P,
) -> (r: Result<(), GeoError>)
    ensures
        final(processor).dims_z() == old(processor).dims_z(),
        final(processor).dims_m() == old(processor).dims_m(),
        final(processor).infallible() == old(processor).infallible(),
        ({
            let out = line_out(
                data@,
                *old(pos) as int,
                info.byte_order,
                info.has_z,
                info.has_m,
                spec_multi(old(processor)),
                tagged,
                idx,
            );
            &&& r is Ok ==> out is Events && final(processor).events() == old(processor).events()
                + out_evts(out) && *final(pos) as int == out_end(out)
            &&& old(processor).infallible() ==> (r matches Err(e) ==> out == (ParseOutcome::Fail {
                err: e,
            }))
        }),
{
    let n32 = match read_u32(data, pos, info.byte_order) {
        Ok(v) => v,
        Err(e) => return Err(e),
    };
    let n = n32 as usize;
    match processor.linestring_begin(tagged, n, idx) {
        Ok(()) => (),
        Err(e) => return Err(e),
    };
    let multi = multi_dim(processor);
    let ghost base = processor.events();
    let ghost start = *pos as int;
    let ghost mut delta: Seq<Event> = Seq::empty();
    let mut i: usize = 0;
    while i < n
        invariant
            i <= n,
            processor.events() == base + delta,
            coords_out(data@, start, info.byte_order, info.has_z, info.has_m, multi, 0, n)
                == prepend(
                delta,
                coords_out(
                    data@,
                    *pos as int,
                    info.byte_order,
                    info.has_z,
                    info.has_m,
                    multi,
                    i,
                    n,
                ),
            ),
            processor.dims_z() == old(processor).dims_z(),
            processor.dims_m() == old(processor).dims_m(),
            processor.infallible() == old(processor).infallible(),
        decreases n - i,
    {
        let ghost pos_before = *pos as int;
        let ghost delta_before = delta;
        let r = process_coord(data, pos, info, multi, i, processor);
        match r {
            Ok(()) => (),
            Err(e) => return Err(e),
        };
        proof {
            let co = coord_out(
                data@,
                pos_before,
                info.byte_order,
                info.has_z,
                info.has_m,
                multi,
                i,
            );
            delta = delta + out_evts(co);
            assert(processor.events() =~= base + delta);
            lemma_prepend_prepend(
                delta_before,
                out_evts(co),
                coords_out(
                    data@,
                    *pos as int,
                    info.byte_order,
                    info.has_z,
                    info.has_m,
                    multi,
                    (i + 1) as usize,
                    n,
                ),
            );
        }
        i = i + 1;
    }
    match processor.linestring_end(tagged, idx) {
        Ok(()) => {
            proof {
                let out = line_out(
                    data@,
                    *old(pos) as int,
                    info.byte_order,
                    info.has_z,
                    info.has_m,
                    spec_multi(old(processor)),
                    tagged,
                    idx,
                );
                assert(delta + Seq::<Event>::empty() =~= delta);
                assert(final(processor).events() =~= old(processor).events() + out_evts(out));
            }
            Ok(())
        },
        Err(e) => Err(e),
    }
}

/// Read a Polygon body (ring count, then that many untagged rings, each
/// a LineString body) and drive the processor through it.
#[verifier::loop_isolation(false)]
#[verifier::rlimit(60)]
pub fn process_polygon<P: GeomProcessor>(
    data: &Vec<u8>,
    pos: &mut usize,
    info: &GeometryHeader,
    tagged: bool,
    idx: usize,
    processor: &mut P,
) -> (r: Result<(), GeoError>)
    ensures
        final(processor).dims_z() == old(processor).dims_z(),
        final(processor).dims_m() == old(processor).dims_m(),
        final(processor).infallible() == old(processor).infallible(),
        ({
            let out = poly_out(
                data@,
                *old(pos) as int,
                info.byte_order,
                info.has_z,
                info.has_m,
                spec_multi(old(processor)),
                tagged,
                idx,
            );
            &&& r is Ok ==> out is Events && final(processor).events() == old(processor).events()
                + out_evts(out) && *final(pos) as int == out_end(out)
            &&& old(processor).infallible() ==> (r matches Err(e) ==> out == (ParseOutcome::Fail {
                err: e,
            }))
        }),
{
    let n32 = match read_u32(data, pos, info.byte_order) {
        Ok(v) => v,
        Err(e) => return Err(e),
    };
    let n = n32 as usize;
    match processor.polygon_begin(tagged, n, idx) {
        Ok(()) => (),
        Err(e) => return Err(e),
    };
    let ghost multi = spec_multi(processor);
    let ghost base = processor.events();
    let ghost start = *pos as int;
    let ghost mut delta: Seq<Event> = Seq::empty();
    let mut i: usize = 0;
    while i < n
        invariant
            i <= n,
            processor.events() == base + delta,
            rings_out(data@, start, info.byte_order, info.has_z, info.has_m, multi, 0, n)
                == prepend(
                delta,
                rings_out(
                    data@,
                    *pos as int,
                    info.byte_order,
                    info.has_z,
                    info.has_m,
                    multi,
                    i,
                    n,
                ),
            ),
            processor.dims_z() == old(processor).dims_z(),
            processor.dims_m() == old(processor).dims_m(),
            processor.infallible() == old(processor).infallible(),
        decreases n - i,
    {
        let ghost pos_before = *pos as int;
        let ghost delta_before = delta;
        let r = process_linestring(data, pos, info, false, i, processor);
        match r {
            Ok(()) => (),
            Err(e) => return Err(e),
        };
        proof {
            let lo = line_out(
                data@,
                pos_before,
                info.byte_order,
                info.has_z,
                info.has_m,
                multi,
                false,
                i,
            );
            delta = delta + out_evts(lo);
            assert(processor.events() =~= base + delta);
            lemma_prepend_prepend(
                delta_before,
                out_evts(lo),
                rings_out(
                    data@,
                    *pos as int,
                    info.byte_order,
                    info.has_z,
                    info.has_m,
                    multi,
                    (i + 1) as usize,
                    n,
                ),
            );
        }
        i = i + 1;
    }
    match processor.polygon_end(tagged, idx) {
        Ok(()) => {
            proof {
                let out = poly_out(
                    data@,
                    *old(pos) as int,
                    info.byte_order,
                    info.has_z,
                    info.has_m,
                    spec_multi(old(processor)),
                    tagged,
                    idx,
                );
                assert(delta + Seq::<Event>::empty() =~= delta);
                assert(final(processor).events() =~= old(processor).events() + out_evts(out));
            }
            Ok(())
        },
        Err(e) => Err(e),
    }
}


/// Walk the elements of a MultiPoint: a child header then one
/// coordinate tuple per element.
#[verifier::loop_isolation(false)]
#[verifier::rlimit(60)]
fn process_multipoint<P: GeomProcessor>(
    data: &Vec<u8>,
    pos: &mut usize,
    info: &GeometryHeader,
    fmt: HeaderFormat,
    idx: usize,
    processor: &mut P,
) -> (r: Result<(), GeoError>)
    ensures
        final(processor).dims_z() == old(processor).dims_z(),
        final(processor).dims_m() == old(processor).dims_m(),
        final(processor).infallible() == old(processor).infallible(),
        ({
            let out = multipoint_out(
                data@,
                *old(pos) as int,
                info.byte_order,
                fmt,
                spec_multi(old(processor)),
                idx,
            );
            &&& r is Ok ==> out is Events && final(processor).events() == old(processor).events()
                + out_evts(out) && *final(pos) as int == out_end(out)
            &&& old(processor).infallible() ==> (r matches Err(e) ==> out == (ParseOutcome::Fail {
                err: e,
            }))
        }),
{
    let ghost multi = spec_multi(processor);
    let n32 = match read_u32(data, pos, info.byte_order) {
        Ok(v) => v,
        Err(e) => return Err(e),
    };
    let n = n32 as usize;
    match processor.multipoint_begin(n, idx) {
        Ok(()) => (),
        Err(e) => return Err(e),
    };
    let m = multi_dim(processor);
    let ghost base = processor.events();
    let ghost start = *pos as int;
    let ghost mut delta: Seq<Event> = Seq::empty();
    let mut i: usize = 0;
    while i < n
        invariant
            i <= n,
            processor.events() == base + delta,
            points_out(data@, start, fmt, multi, 0, n) == prepend(
                delta,
                points_out(data@, *pos as int, fmt, multi, i, n),
            ),
            processor.dims_z() == old(processor).dims_z(),
            processor.dims_m() == old(processor).dims_m(),
            processor.infallible() == old(processor).infallible(),
        decreases n - i,
    {
        let ghost delta_before = delta;
        let child = match read_child_header(data, pos, fmt) {
            Ok(h) => h,
            Err(e) => return Err(e),
        };
        let ghost child_start = *pos as int;
        match process_coord(data, pos, &child, m, i, processor) {
            Ok(()) => (),
            Err(e) => return Err(e),
        };
        proof {
            let co = coord_out(
                data@,
                child_start,
                child.byte_order,
                child.has_z,
                child.has_m,
                multi,
                i,
            );
            delta = delta + out_evts(co);
            assert(processor.events() =~= base + delta);
            lemma_prepend_prepend(
                delta_before,
                out_evts(co),
                points_out(data@, *pos as int, fmt, multi, (i + 1) as usize, n),
            );
        }
        i = i + 1;
    }
    match processor.multipoint_end(idx) {
        Ok(()) => {
            proof {
                let out = multipoint_out(
                    data@,
                    *old(pos) as int,
                    info.byte_order,
                    fmt,
                    spec_multi(old(processor)),
                    idx,
                );
                assert(delta + Seq::<Event>::empty() =~= delta);
                assert(final(processor).events() =~= old(processor).events() + out_evts(out));
            }
            Ok(())
        },
        Err(e) => Err(e),
    }
}

/// Walk the elements of a MultiLineString: a child header then an
/// untagged LineString body per element.
#[verifier::loop_isolation(false)]
#[verifier::rlimit(60)]
fn process_multilinestring<P: GeomProcessor>(
    data: &Vec<u8>,
    pos: &mut usize,
    info: &GeometryHeader,
    fmt: HeaderFormat,
    idx: usize,
    processor: &mut P,
) -> (r: Result<(), GeoError>)
    ensures
        final(processor).dims_z() == old(processor).dims_z(),
        final(processor).dims_m() == old(processor).dims_m(),
        final(processor).infallible() == old(processor).infallible(),
        ({
            let out = multiline_out(
                data@,
                *old(pos) as int,
                info.byte_order,
                fmt,
                spec_multi(old(processor)),
                idx,
            );
            &&& r is Ok ==> out is Events && final(processor).events() == old(processor).events()
                + out_evts(out) && *final(pos) as int == out_end(out)
            &&& old(processor).infallible() ==> (r matches Err(e) ==> out == (ParseOutcome::Fail {
                err: e,
            }))
        }),
{
    let ghost multi = spec_multi(processor);
    let n32 = match read_u32(data, pos, info.byte_order) {
        Ok(v) => v,
        Err(e) => return Err(e),
    };
    let n = n32 as usize;
    match processor.multilinestring_begin(n, idx) {
        Ok(()) => (),
        Err(e) => return Err(e),
    };
    let ghost base = processor.events();
    let ghost start = *pos as int;
    let ghost mut delta: Seq<Event> = Seq::empty();
    let mut i: usize = 0;
    while i < n
        invariant
            i <= n,
            processor.events() == base + delta,
            lines_out(data@, start, fmt, multi, 0, n) == prepend(
                delta,
                lines_out(data@, *pos as int, fmt, multi, i, n),
            ),
            processor.dims_z() == old(processor).dims_z(),
            processor.dims_m() == old(processor).dims_m(),
            processor.infallible() == old(processor).infallible(),
        decreases n - i,
    {
        let ghost delta_before = delta;
        let child = match read_child_header(data, pos, fmt) {
            Ok(h) => h,
            Err(e) => return Err(e),
        };
        let ghost child_start = *pos as int;
        match process_linestring(data, pos, &child, false, i, processor) {
            Ok(()) => (),
            Err(e) => return Err(e),
        };
        proof {
            let lo = line_out(
                data@,
                child_start,
                child.byte_order,
                child.has_z,
                child.has_m,
                multi,
                false,
                i,
            );
            delta = delta + out_evts(lo);
            assert(processor.events() =~= base + delta);
            lemma_prepend_prepend(
                delta_before,
                out_evts(lo),
                lines_out(data@, *pos as int, fmt, multi, (i + 1) as usize, n),
            );
        }
        i = i + 1;
    }
    match processor.multilinestring_end(idx) {
        Ok(()) => {
            proof {
                let out = multiline_out(
                    data@,
                    *old(pos) as int,
                    info.byte_order,
                    fmt,
                    spec_multi(old(processor)),
                    idx,
                );
                assert(delta + Seq::<Event>::empty() =~= delta);
                assert(final(processor).events() =~= old(processor).events() + out_evts(out));
            }
            Ok(())
        },
        Err(e) => Err(e),
    }
}

/// Walk the elements of a MultiPolygon: a child header then an untagged
/// Polygon body per element.
#[verifier::loop_isolation(false)]
#[verifier::rlimit(60)]
fn process_multipolygon<P: GeomProcessor>(
    data: &Vec<u8>,
    pos: &mut usize,
    info: &GeometryHeader,
    fmt: HeaderFormat,
    idx: usize,
    processor: &mut P,
) -> (r: Result<(), GeoError>)
    ensures
        final(processor).dims_z() == old(processor).dims_z(),
        final(processor).dims_m() == old(processor).dims_m(),
        final(processor).infallible() == old(processor).infallible(),
        ({
            let out = multipoly_out(
                data@,
                *old(pos) as int,
                info.byte_order,
                fmt,
                spec_multi(old(processor)),
                idx,
            );
            &&& r is Ok ==> out is Events && final(processor).events() == old(processor).events()
                + out_evts(out) && *final(pos) as int == out_end(out)
            &&& old(processor).infallible() ==> (r matches Err(e) ==> out == (ParseOutcome::Fail {
                err: e,
            }))
        }),
{
    let ghost multi = spec_multi(processor);
    let n32 = match read_u32(data, pos, info.byte_order) {
        Ok(v) => v,
        Err(e) => return Err(e),
    };
    let n = n32 as usize;
    match processor.multipolygon_begin(n, idx) {
        Ok(()) => (),
        Err(e) => return Err(e),
    };
    let ghost base = processor.events();
    let ghost start = *pos as int;
    let ghost mut delta: Seq<Event> = Seq::empty();
    let mut i: usize = 0;
    while i < n
        invariant
            i <= n,
            processor.events() == base + delta,
            polys_out(data@, start, fmt, multi, 0, n) == prepend(
                delta,
                polys_out(data@, *pos as int, fmt, multi, i, n),
            ),
            processor.dims_z() == old(processor).dims_z(),
            processor.dims_m() == old(processor).dims_m(),
            processor.infallible() == old(processor).infallible(),
        decreases n - i,
    {
        let ghost delta_before = delta;
        let child = match read_child_header(data, pos, fmt) {
            Ok(h) => h,
            Err(e) => return Err(e),
        };
        let ghost child_start = *pos as int;
        match process_polygon(data, pos, &child, false, i, processor) {
            Ok(()) => (),
            Err(e) => return Err(e),
        };
        proof {
            let po = poly_out(
                data@,
                child_start,
                child.byte_order,
                child.has_z,
                child.has_m,
                multi,
                false,
                i,
            );
            delta = delta + out_evts(po);
            assert(processor.events() =~= base + delta);
            lemma_prepend_prepend(
                delta_before,
                out_evts(po),
                polys_out(data@, *pos as int, fmt, multi, (i + 1) as usize, n),
            );
        }
        i = i + 1;
    }
    match processor.multipolygon_end(idx) {
        Ok(()) => {
            proof {
                let out = multipoly_out(
                    data@,
                    *old(pos) as int,
                    info.byte_order,
                    fmt,
                    spec_multi(old(processor)),
                    idx,
                );
                assert(delta + Seq::<Event>::empty() =~= delta);
                assert(final(processor).events() =~= old(processor).events() + out_evts(out));
            }
            Ok(())
        },
        Err(e) => Err(e),
    }
}

/// Walk the elements of a GeometryCollection: a child header then a full
/// recursive geometry body per element, spending one level of depth
/// budget; a child found with no budget left is rejected.
#[verifier::loop_isolation(false)]
#[verifier::rlimit(60)]
fn process_geometrycollection<P: GeomProcessor>(
    data: &Vec<u8>,
    pos: &mut usize,
    info: &GeometryHeader,
    fmt: HeaderFormat,
    idx: usize,
    depth: u32,
    processor: &mut P,
) -> (r: Result<(), GeoError>)
    ensures
        final(processor).dims_z() == old(processor).dims_z(),
        final(processor).dims_m() == old(processor).dims_m(),
        final(processor).infallible() == old(processor).infallible(),
        ({
            let out = collection_out(
                data@,
                *old(pos) as int,
                info.byte_order,
                fmt,
                spec_multi(old(processor)),
                idx,
                depth as nat,
            );
            &&& r is Ok ==> out is Events && final(processor).events() == old(processor).events()
                + out_evts(out) && *final(pos) as int == out_end(out)
            &&& old(processor).infallible() ==> (r matches Err(e) ==> out == (ParseOutcome::Fail {
                err: e,
            }))
        }),
    decreases depth, 0int,
{
    let ghost multi = spec_multi(processor);
    let n32 = match read_u32(data, pos, info.byte_order) {
        Ok(v) => v,
        Err(e) => return Err(e),
    };
    let n = n32 as usize;
    match processor.geometrycollection_begin(n, idx) {
        Ok(()) => (),
        Err(e) => return Err(e),
    };
    let ghost base = processor.events();
    let ghost start = *pos as int;
    let ghost mut delta: Seq<Event> = Seq::empty();
    let mut i: usize = 0;
    while i < n
        invariant
            i <= n,
            processor.events() == base + delta,
            geoms_out(data@, start, fmt, multi, 0, n, depth as nat) == prepend(
                delta,
                geoms_out(data@, *pos as int, fmt, multi, i, n, depth as nat),
            ),
            processor.dims_z() == old(processor).dims_z(),
            processor.dims_m() == old(processor).dims_m(),
            processor.infallible() == old(processor).infallible(),
        decreases n - i,
    {
        if depth == 0 {
            return Err(GeoError::NestingTooDeep);
        }
        let ghost delta_before = delta;
        let child = match read_child_header(data, pos, fmt) {
            Ok(h) => h,
            Err(e) => return Err(e),
        };
        let ghost child_start = *pos as int;
        match process_wkb_geom_n(data, pos, &child, fmt, i, depth - 1, processor) {
            Ok(()) => (),
            Err(e) => return Err(e),
        };
        proof {
            let go = geometry_out(
                data@,
                child_start,
                child.byte_order,
                child.kind,
                child.has_z,
                child.has_m,
                fmt,
                multi,
                i,
                (depth - 1) as nat,
            );
            delta = delta + out_evts(go);
            assert(processor.events() =~= base + delta);
            lemma_prepend_prepend(
                delta_before,
                out_evts(go),
                geoms_out(data@, *pos as int, fmt, multi, (i + 1) as usize, n, depth as nat),
            );
        }
        i = i + 1;
    }
    match processor.geometrycollection_end(idx) {
        Ok(()) => {
            proof {
                let out = collection_out(
                    data@,
                    *old(pos) as int,
                    info.byte_order,
                    fmt,
                    spec_multi(old(processor)),
                    idx,
                    depth as nat,
                );
                assert(delta + Seq::<Event>::empty() =~= delta);
                assert(final(processor).events() =~= old(processor).events() + out_evts(out));
            }
            Ok(())
        },
        Err(e) => Err(e),
    }
}

/// Walk one geometry body of `info`'s kind, at the cursor, driving the
/// processor; `idx` is the geometry's position within its parent and
/// `depth` the remaining nesting budget for collections. Child headers
/// are re-decoded under the `fmt` strategy. Triangle, PolyhedralSurface,
/// TIN and Unknown kinds are rejected with a format error.
#[verifier::rlimit(60)]
pub fn process_wkb_geom_n<P: GeomProcessor>(
    data: &Vec<u8>,
    pos: &mut usize,
    info: &GeometryHeader,
    fmt: HeaderFormat,
    idx: usize,
    depth: u32,
    processor: &mut P,
) -> (r: Result<(), GeoError>)
    ensures
        final(processor).dims_z() == old(processor).dims_z(),
        final(processor).dims_m() == old(processor).dims_m(),
        final(processor).infallible() == old(processor).infallible(),
        ({
            let out = geometry_out(
                data@,
                *old(pos) as int,
                info.byte_order,
                info.kind,
                info.has_z,
                info.has_m,
                fmt,
                spec_multi(old(processor)),
                idx,
                depth as nat,
            );
            &&& r is Ok ==> out is Events && final(processor).events() == old(processor).events()
                + out_evts(out) && *final(pos) as int == out_end(out)
            &&& old(processor).infallible() ==> (r matches Err(e) ==> out == (ParseOutcome::Fail {
                err: e,
            }))
        }),
    decreases depth, 1int,
{
    let ghost multi = spec_multi(processor);
    match info.kind {
        WKBGeometryType::Point => {
            match processor.point_begin(idx) {
                Ok(()) => (),
                Err(e) => return Err(e),
            };
            let m = multi_dim(processor);
            let ghost coord_start = *pos as int;
            match process_coord(data, pos, info, m, 0, processor) {
                Ok(()) => (),
                Err(e) => return Err(e),
            };
            match processor.point_end(idx) {
                Ok(()) => (),
                Err(e) => return Err(e),
            };
            proof {
                let co = coord_out(
                    data@,
                    coord_start,
                    info.byte_order,
                    info.has_z,
                    info.has_m,
                    multi,
                    0,
                );
                assert(final(processor).events() =~= old(processor).events() + (seq![
                    Event::PointBegin { idx },
                ] + out_evts(co)).push(Event::PointEnd { idx }));
            }
            Ok(())
        },
        WKBGeometryType::LineString => process_linestring(data, pos, info, true, idx, processor),
        WKBGeometryType::Polygon => process_polygon(data, pos, info, true, idx, processor),
        WKBGeometryType::MultiPoint => process_multipoint(data, pos, info, fmt, idx, processor),
        WKBGeometryType::MultiLineString => process_multilinestring(
            data,
            pos,
            info,
            fmt,
            idx,
            processor,
        ),
        WKBGeometryType::MultiPolygon => process_multipolygon(data, pos, info, fmt, idx, processor),
        WKBGeometryType::GeometryCollection => process_geometrycollection(
            data,
            pos,
            info,
            fmt,
            idx,
            depth,
            processor,
        ),
        _ => Err(GeoError::GeometryFormat),
    }
}

/// Decode an EWKB-framed geometry from the cursor onward, driving the
/// processor; child headers are read as EWKB headers.
pub fn process_ewkb_geom<P: GeomProcessor>(
    data: &Vec<u8>,
    pos: &mut usize,
    processor: &mut P,
) -> (r: Result<(), GeoError>)
    ensures
        final(processor).dims_z() == old(processor).dims_z(),
        final(processor).dims_m() == old(processor).dims_m(),
        final(processor).infallible() == old(processor).infallible(),
        ({
            let out = ewkb_geom_out(data@, *old(pos) as int, spec_multi(old(processor)));
            &&& r is Ok ==> out is Events && final(processor).events() == old(processor).events()
                + out_evts(out) && *final(pos) as int == out_end(out)
            &&& old(processor).infallible() ==> (r matches Err(e) ==> out == (ParseOutcome::Fail {
                err: e,
            }))
        }),
{
    let info = match read_ewkb_header(data, pos) {
        Ok(h) => h,
        Err(e) => return Err(e),
    };
    process_wkb_geom_n(data, pos, &info, HeaderFormat::Ewkb, 0, MAX_NESTING_DEPTH, processor)
}

/// Decode a GPKG-framed geometry from the cursor onward, driving the
/// processor; the GPKG header embeds an OGC header, and child headers are
/// read as plain OGC headers.
pub fn process_gpkg_geom<P: GeomProcessor>(
    data: &Vec<u8>,
    pos: &mut usize,
    processor: &mut P,
) -> (r: Result<(), GeoError>)
    ensures
        final(processor).dims_z() == old(processor).dims_z(),
        final(processor).dims_m() == old(processor).dims_m(),
        final(processor).infallible() == old(processor).infallible(),
        ({
            let out = gpkg_geom_out(data@, *old(pos) as int, spec_multi(old(processor)));
            &&& r is Ok ==> out is Events && final(processor).events() == old(processor).events()
                + out_evts(out) && *final(pos) as int == out_end(out)
            &&& old(processor).infallible() ==> (r matches Err(e) ==> out == (ParseOutcome::Fail {
                err: e,
            }))
        }),
{
    let info = match read_gpkg_header(data, pos) {
        Ok(h) => h,
        Err(e) => return Err(e),
    };
    process_wkb_geom_n(data, pos, &info, HeaderFormat::Ogc, 0, MAX_NESTING_DEPTH, processor)
}

} // verus!

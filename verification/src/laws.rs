//! Laws of the decoder, stated and proved over the spec model: the
//! dimension-indicator mapping, the EWKB SRID round trip, the GPKG
//! envelope-length table, and byte-order independence.

use vstd::prelude::*;

use crate::bytes::{
    i32_at, i32_bytes, lemma_i32_bytes_roundtrip, lemma_u32_bytes_roundtrip,
    lemma_u64_bytes_roundtrip, u32_at, u32_bytes, u64_at, u64_bytes,
};
use crate::error::GeoError;
use crate::header::{
    env_len_of, ewkb_header_out, gpkg_header_out, order_of_flag, wkb_dim_m, wkb_dim_z,
    wkb_header_out, HeaderOutcome,
};
use crate::types::{ByteOrder, HeaderFormat, WKBGeometryType};
use crate::walker::{coord_event, coord_out, geometry_out, ParseOutcome};

verus! {

/// For every OGC type code, the dimension indicator (code / 1000)
/// determines the Z/M flags: indicator 0 gives (false, false), 1 gives
/// (true, false), 2 gives (false, true) and 3 gives (true, true).
pub proof fn lemma_ogc_dimension_flags(code: u32)
    ensures
        code / 1000 == 0 ==> !wkb_dim_z(code) && !wkb_dim_m(code),
        code / 1000 == 1 ==> wkb_dim_z(code) && !wkb_dim_m(code),
        code / 1000 == 2 ==> !wkb_dim_z(code) && wkb_dim_m(code),
        code / 1000 == 3 ==> wkb_dim_z(code) && wkb_dim_m(code),
{
}

/// EWKB SRID round trip: a header encoded with the SRID bit set and a
/// given SRID decodes to exactly that SRID; one encoded without the bit
/// decodes to no SRID. Holds for every order flag, type code and SRID.
pub proof fn lemma_ewkb_srid_round_trip(flag: u8, code: u32, srid: i32)
    ensures
        ({
            let order = order_of_flag(flag);
            let with_srid = seq![flag] + u32_bytes(code, order) + i32_bytes(srid, order);
            code & 0x20000000 == 0x20000000 ==> (ewkb_header_out(with_srid, 0)
                matches HeaderOutcome::Hdr { srid: s, .. } && s == Some(srid))
        }),
        ({
            let order = order_of_flag(flag);
            let without_srid = seq![flag] + u32_bytes(code, order);
            code & 0x20000000 != 0x20000000 ==> (ewkb_header_out(without_srid, 0)
                matches HeaderOutcome::Hdr { srid: s, .. } && s == None::<i32>)
        }),
{
    reveal(u32_at);
    let order = order_of_flag(flag);
    let cb = u32_bytes(code, order);
    let sb = i32_bytes(srid, order);
    let with_srid = seq![flag] + cb + sb;
    let without_srid = seq![flag] + cb;
    lemma_u32_bytes_roundtrip(code, order);
    lemma_i32_bytes_roundtrip(srid, order);
    assert(with_srid[0] == flag && without_srid[0] == flag);
    assert(forall|i: int| 0 <= i < 4 ==> with_srid[1 + i] == cb[i]);
    assert(forall|i: int| 0 <= i < 4 ==> without_srid[1 + i] == cb[i]);
    assert(forall|i: int| 0 <= i < 4 ==> with_srid[5 + i] == sb[i]);
    assert(u32_at(with_srid, 1, order) == u32_at(cb, 0, order));
    assert(u32_at(without_srid, 1, order) == u32_at(cb, 0, order));
    assert(u32_at(with_srid, 5, order) == u32_at(sb, 0, order));
}

/// The GPKG envelope-length table: selectors 0 to 4 choose envelopes of
/// 0, 4, 6, 6 and 8 doubles; selectors 5 to 7 choose nothing.
pub proof fn lemma_gpkg_envelope_selector(sel: u8)
    ensures
        sel == 0 ==> env_len_of(sel) == Some(0usize),
        sel == 1 ==> env_len_of(sel) == Some(4usize),
        sel == 2 ==> env_len_of(sel) == Some(6usize),
        sel == 3 ==> env_len_of(sel) == Some(6usize),
        sel == 4 ==> env_len_of(sel) == Some(8usize),
        sel >= 5 ==> env_len_of(sel) is None,
{
}

/// A GPKG header whose flags byte selects an envelope length outside the
/// valid settings is rejected as a format error, whatever else the
/// stream holds.
pub proof fn lemma_gpkg_bad_selector_rejected(d: Seq<u8>, pos: int)
    requires
        0 <= pos,
        pos + 4 <= d.len(),
        d[pos] == 0x47,
        d[pos + 1] == 0x50,
        (d[pos + 3] & 0x0E) >> 1 >= 5,
    ensures
        gpkg_header_out(d, pos) == (HeaderOutcome::Fail { err: GeoError::GeometryFormat }),
{
}

/// Byte-order independence of headers: the same type code encoded once
/// behind a big-endian flag and once behind a little-endian flag decodes
/// to the same kind and the same Z/M flags.
pub proof fn lemma_wkb_header_endianness(code: u32)
    ensures
        ({
            let be = seq![0u8] + u32_bytes(code, ByteOrder::BigEndian);
            let le = seq![1u8] + u32_bytes(code, ByteOrder::LittleEndian);
            &&& wkb_header_out(be, 0) matches HeaderOutcome::Hdr {
                kind: bk,
                has_z: bz,
                has_m: bm,
                ..
            } && (wkb_header_out(le, 0) matches HeaderOutcome::Hdr {
                kind: lk,
                has_z: lz,
                has_m: lm,
                ..
            } && bk == lk && bz == lz && bm == lm)
        }),
{
    reveal(u32_at);
    let bb = u32_bytes(code, ByteOrder::BigEndian);
    let lb = u32_bytes(code, ByteOrder::LittleEndian);
    let be = seq![0u8] + bb;
    let le = seq![1u8] + lb;
    lemma_u32_bytes_roundtrip(code, ByteOrder::BigEndian);
    lemma_u32_bytes_roundtrip(code, ByteOrder::LittleEndian);
    assert(forall|i: int| 0 <= i < 4 ==> be[1 + i] == bb[i]);
    assert(forall|i: int| 0 <= i < 4 ==> le[1 + i] == lb[i]);
    assert(u32_at(be, 1, ByteOrder::BigEndian) == u32_at(bb, 0, ByteOrder::BigEndian));
    assert(u32_at(le, 1, ByteOrder::LittleEndian) == u32_at(lb, 0, ByteOrder::LittleEndian));
}

/// Byte-order independence of coordinates: the same pair of doubles
/// encoded once big-endian and once little-endian yields the same
/// coordinate event and consumes the same width, for either coordinate
/// form.
pub proof fn lemma_coord_endianness(xb: u64, yb: u64, multi: bool, idx: usize)
    ensures
        ({
            let be = u64_bytes(xb, ByteOrder::BigEndian) + u64_bytes(yb, ByteOrder::BigEndian);
            let le = u64_bytes(xb, ByteOrder::LittleEndian) + u64_bytes(
                yb,
                ByteOrder::LittleEndian,
            );
            coord_out(be, 0, ByteOrder::BigEndian, false, false, multi, idx) == coord_out(
                le,
                0,
                ByteOrder::LittleEndian,
                false,
                false,
                multi,
                idx,
            )
        }),
{
    reveal(u64_at);
    reveal(coord_event);
    let xbe = u64_bytes(xb, ByteOrder::BigEndian);
    let ybe = u64_bytes(yb, ByteOrder::BigEndian);
    let xle = u64_bytes(xb, ByteOrder::LittleEndian);
    let yle = u64_bytes(yb, ByteOrder::LittleEndian);
    let be = xbe + ybe;
    let le = xle + yle;
    lemma_u64_bytes_roundtrip(xb, ByteOrder::BigEndian);
    lemma_u64_bytes_roundtrip(yb, ByteOrder::BigEndian);
    lemma_u64_bytes_roundtrip(xb, ByteOrder::LittleEndian);
    lemma_u64_bytes_roundtrip(yb, ByteOrder::LittleEndian);
    assert(forall|i: int| 0 <= i < 8 ==> be[i] == xbe[i] && le[i] == xle[i]);
    assert(forall|i: int| 0 <= i < 8 ==> be[8 + i] == ybe[i] && le[8 + i] == yle[i]);
    assert(u64_at(be, 0, ByteOrder::BigEndian) == u64_at(xbe, 0, ByteOrder::BigEndian));
    assert(u64_at(be, 8, ByteOrder::BigEndian) == u64_at(ybe, 0, ByteOrder::BigEndian));
    assert(u64_at(le, 0, ByteOrder::LittleEndian) == u64_at(xle, 0, ByteOrder::LittleEndian));
    assert(u64_at(le, 8, ByteOrder::LittleEndian) == u64_at(yle, 0, ByteOrder::LittleEndian));
    assert(coord_event(be, 0, ByteOrder::BigEndian, false, false, multi, idx) == coord_event(
        le,
        0,
        ByteOrder::LittleEndian,
        false,
        false,
        multi,
        idx,
    ));
    assert(coord_out(be, 0, ByteOrder::BigEndian, false, false, multi, idx) =~= coord_out(
        le,
        0,
        ByteOrder::LittleEndian,
        false,
        false,
        multi,
        idx,
    ));
}

/// Byte-order independence of whole Point geometries: the same pair of
/// doubles as a Point body decodes to the same events under either byte
/// order, whatever the child-header strategy and depth budget.
pub proof fn lemma_point_endianness(
    xb: u64,
    yb: u64,
    fmt: HeaderFormat,
    multi: bool,
    idx: usize,
    depth: nat,
)
    ensures
        ({
            let be = u64_bytes(xb, ByteOrder::BigEndian) + u64_bytes(yb, ByteOrder::BigEndian);
            let le = u64_bytes(xb, ByteOrder::LittleEndian) + u64_bytes(
                yb,
                ByteOrder::LittleEndian,
            );
            geometry_out(
                be,
                0,
                ByteOrder::BigEndian,
                WKBGeometryType::Point,
                false,
                false,
                fmt,
                multi,
                idx,
                depth,
            ) == geometry_out(
                le,
                0,
                ByteOrder::LittleEndian,
                WKBGeometryType::Point,
                false,
                false,
                fmt,
                multi,
                idx,
                depth,
            )
        }),
{
    lemma_coord_endianness(xb, yb, multi, 0);
}

} // verus!
